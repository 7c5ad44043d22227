//! From a reference to a secret to the credential it holds.

use vstd::prelude::*;
use vstd::string::*;
use vstd::utf8::{decode_utf8, valid_utf8};

use crate::cloudflare::client::{Credentials, CredentialsView};
use crate::controller::clustertunnel::{CloudflareCredentials, CloudflareSecretRef};
use crate::error::Error;

verus! {

/// One entry of a secret.
#[derive(Clone, Debug, PartialEq, Eq)]
pub struct SecretEntry {
    pub key: String,
    pub value: Vec<u8>,
}

/// A secret of the cluster, as far as a pass reads it.
#[derive(Clone, Debug, PartialEq, Eq)]
pub struct Secret {
    pub data: Option<Vec<SecretEntry>>,
}

/// `at` is the first entry of `entries` under `key`.
pub open spec fn first_under(entries: Seq<SecretEntry>, key: Seq<char>, at: int) -> bool {
    &&& 0 <= at < entries.len()
    &&& entries[at].key@ == key
    &&& forall|j: int| 0 <= j < at ==> (#[trigger] entries[j]).key@ != key
}

/// The bytes that a secret holds under `key`, where it holds any.
pub open spec fn value_under(entries: Seq<SecretEntry>, key: Seq<char>) -> Option<Seq<u8>> {
    if exists|at: int| first_under(entries, key, at) {
        Some(entries[choose|at: int| first_under(entries, key, at)].value@)
    } else {
        None
    }
}

proof fn lemma_first_under_is_one(entries: Seq<SecretEntry>, key: Seq<char>, at: int)
    requires
        first_under(entries, key, at),
    ensures
        value_under(entries, key) == Some(entries[at].value@),
{
    let other = choose|at: int| first_under(entries, key, at);
    assert(first_under(entries, key, other));
    if other < at {
        assert(entries[other].key@ != key);
    }
    if at < other {
        assert(entries[at].key@ != key);
    }
}

proof fn lemma_not_under(entries: Seq<SecretEntry>, key: Seq<char>)
    requires
        forall|j: int| 0 <= j < entries.len() ==> (#[trigger] entries[j]).key@ != key,
    ensures
        value_under(entries, key) is None,
{
    if exists|at: int| first_under(entries, key, at) {
        let at = choose|at: int| first_under(entries, key, at);
        assert(entries[at].key@ != key);
    }
}

/// The bytes that a secret holds under a key, or why there are none: the
/// secret is missing, it has no data, or it has no such key.
pub open spec fn stored_under(secret: Option<Secret>, key: Seq<char>, no_key: Error) -> Result<
    Seq<u8>,
    Error,
> {
    match secret {
        None => Err(Error::MissingSecret),
        Some(s) => match s.data {
            None => Err(Error::MissingSecretData),
            Some(entries) => match value_under(entries@, key) {
                None => Err(no_key),
                Some(bytes) => Ok(bytes),
            },
        },
    }
}

/// Looks up the first entry under a key.
fn find_entry<'a>(entries: &'a Vec<SecretEntry>, key: &str) -> (value: Option<&'a Vec<u8>>)
    ensures
        match value {
            Some(bytes) => value_under(entries@, key@) == Some(bytes@),
            None => value_under(entries@, key@) is None,
        },
{
    let wanted = String::from_str(key);
    let n: usize = entries.len();
    let mut i: usize = 0;
    while i < n
        invariant
            i <= n,
            n == entries@.len(),
            wanted@ == key@,
            forall|j: int| 0 <= j < i ==> (#[trigger] entries@[j]).key@ != key@,
        decreases n - i,
    {
        if entries[i].key == wanted {
            proof {
                lemma_first_under_is_one(entries@, key@, i as int);
            }
            return Some(&entries[i].value);
        }
        i += 1;
    }
    proof {
        lemma_not_under(entries@, key@);
    }
    None
}

/// Reads the entry of a secret under a key. `no_key` is the error for a
/// secret without that key.
pub fn stored_value<'a>(secret: &'a Option<Secret>, key: &str, no_key: Error) -> (value: Result<
    &'a Vec<u8>,
    Error,
>)
    ensures
        match value {
            Ok(bytes) => stored_under(*secret, key@, no_key) == Ok::<Seq<u8>, Error>(bytes@),
            Err(e) => stored_under(*secret, key@, no_key) == Err::<Seq<u8>, Error>(e),
        },
{
    match secret {
        None => Err(Error::MissingSecret),
        Some(s) => match &s.data {
            None => Err(Error::MissingSecretData),
            Some(entries) => match find_entry(entries, key) {
                Some(bytes) => Ok(bytes),
                None => Err(no_key),
            },
        },
    }
}

/// The hex text of the SHA-256 digest of a text's UTF-8 bytes.
pub uninterp spec fn sha256_hex(text: Seq<char>) -> Seq<char>;

/// `sha256::digest` of a text: the SHA-256 digest of its bytes, in hex.
#[verifier::external_body]
pub(crate) fn digest(text: &str) -> (hash: String)
    ensures
        hash@ == sha256_hex(text@),
{
    sha256::digest(text)
}

/// `core::str::from_utf8`: the text that the bytes encode, where they are
/// valid UTF-8, and nothing where they are not.
#[verifier::external_body]
fn text_from_utf8(bytes: &Vec<u8>) -> (text: Option<&str>)
    ensures
        text is Some <==> valid_utf8(bytes@),
        text is Some ==> text->0@ == decode_utf8(bytes@),
{
    match core::str::from_utf8(bytes) {
        Ok(text) => Some(text),
        Err(_) => None,
    }
}

/// The credential that a reference resolves to, given the secret it names,
/// or the first thing that is missing: the secret, its data, the key, a
/// value that is text, and for an API key the email.
pub open spec fn resolved(creds: CloudflareCredentials, secret: Option<Secret>) -> Result<
    CredentialsView,
    Error,
> {
    match stored_under(secret, creds.secret_ref.spec_secret_ref().key@, Error::MissingSecretKey) {
        Err(e) => Err(e),
        Ok(bytes) => if !valid_utf8(bytes) {
            Err(Error::InvalidText)
        } else {
            match creds.secret_ref {
                CloudflareSecretRef::ApiKey(_) => match creds.email {
                    None => Err(Error::MissingEmail),
                    Some(email) => Ok(
                        CredentialsView::UserAuthKey { email: email@, key: decode_utf8(bytes) },
                    ),
                },
                CloudflareSecretRef::ApiToken(_) => Ok(
                    CredentialsView::UserAuthToken { token: decode_utf8(bytes) },
                ),
            }
        },
    }
}

/// Resolves a reference to a credential: takes the value under the
/// referenced key of `secret`, which is the secret that the reference names
/// or nothing where the cluster has none, and reads it as text. The value is
/// passed on as it is.
pub fn get_credentials(creds: &CloudflareCredentials, secret: &Option<Secret>) -> (credentials:
    Result<Credentials, Error>)
    ensures
        match credentials {
            Ok(c) => resolved(*creds, *secret) == Ok::<CredentialsView, Error>(c@),
            Err(e) => resolved(*creds, *secret) == Err::<CredentialsView, Error>(e),
        },
{
    let secret_ref = creds.secret_ref.secret_ref();
    let bytes = match stored_value(secret, secret_ref.key.as_str(), Error::MissingSecretKey) {
        Ok(bytes) => bytes,
        Err(e) => {
            return Err(e);
        },
    };
    let value = match text_from_utf8(bytes) {
        Some(text) => String::from_str(text),
        None => {
            return Err(Error::InvalidText);
        },
    };
    match &creds.secret_ref {
        CloudflareSecretRef::ApiKey(_) => match &creds.email {
            None => Err(Error::MissingEmail),
            Some(email) => Ok(Credentials::UserAuthKey { email: email.clone(), key: value }),
        },
        CloudflareSecretRef::ApiToken(_) => Ok(Credentials::UserAuthToken { token: value }),
    }
}

} // verus!
