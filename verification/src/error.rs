use vstd::prelude::*;
use vstd::string::*;

verus! {

/// Why a reconcile pass was given up.
#[derive(Clone, Copy, Debug, PartialEq, Eq, Structural)]
pub enum Error {
    /// The referenced secret does not exist.
    MissingSecret,
    /// The secret exists and carries no data.
    MissingSecretData,
    /// The secret has no entry under the referenced key.
    MissingSecretKey,
    /// The entry is not UTF-8 text.
    InvalidText,
    /// An API key was referenced and no email was given with it.
    MissingEmail,
    /// The tunnel exists at the registry and its credentials are not in the
    /// cluster.
    MissingCredentials,
    /// The stored credentials document cannot be read.
    InvalidCredentials,
    /// The stored routing document is absent or cannot be read.
    MissingConfig,
    /// No `ClusterTunnel` exists for an `Ingress` to bind to.
    NoClusterTunnel,
}

/// The three families an error belongs to.
#[derive(Clone, Copy, Debug, PartialEq, Eq, Structural)]
pub enum ErrorKind {
    Validation,
    Logic,
}

impl Error {
    pub open spec fn spec_kind(self) -> ErrorKind {
        match self {
            Error::NoClusterTunnel => ErrorKind::Logic,
            _ => ErrorKind::Validation,
        }
    }

    /// Every error is a validation error, but for the missing
    /// `ClusterTunnel`, which is a logic error.
    #[verifier::when_used_as_spec(spec_kind)]
    pub fn kind(self) -> (kind: ErrorKind)
        ensures
            kind == self.spec_kind(),
    {
        match self {
            Error::NoClusterTunnel => ErrorKind::Logic,
            _ => ErrorKind::Validation,
        }
    }

    pub open spec fn spec_message(self) -> Seq<char> {
        match self {
            Error::MissingSecret => "secret not found"@,
            Error::MissingSecretData => "no data"@,
            Error::MissingSecretKey => "key not found or invalid"@,
            Error::InvalidText => "value not a string"@,
            Error::MissingEmail => "api key requires email"@,
            Error::MissingCredentials => "no credentials"@,
            Error::InvalidCredentials => "failed to deserialize credentials"@,
            Error::MissingConfig => "no data"@,
            Error::NoClusterTunnel => "no cluster tunnel available"@,
        }
    }

    /// The line that a driver logs for this error.
    pub fn message(self) -> (text: String)
        ensures
            text@ == self.spec_message(),
    {
        match self {
            Error::MissingSecret => String::from_str("secret not found"),
            Error::MissingSecretData => String::from_str("no data"),
            Error::MissingSecretKey => String::from_str("key not found or invalid"),
            Error::InvalidText => String::from_str("value not a string"),
            Error::MissingEmail => String::from_str("api key requires email"),
            Error::MissingCredentials => String::from_str("no credentials"),
            Error::InvalidCredentials => String::from_str("failed to deserialize credentials"),
            Error::MissingConfig => String::from_str("no data"),
            Error::NoClusterTunnel => String::from_str("no cluster tunnel available"),
        }
    }
}

} // verus!
