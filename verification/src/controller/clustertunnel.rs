//! The life of one tunnel: its identity at the registry, and the secret,
//! the routing document and the workload that run it in the cluster.

use vstd::prelude::*;
use vstd::string::*;

use crate::cloudflare::client::{Credentials, CredentialsView};
use crate::cloudflare::{seeded, text_of, TunnelConfig, TunnelConfigView, TunnelCredentials};
use crate::controller::utils::helper::{
    digest, resolved, sha256_hex, stored_under, stored_value, Secret,
};
use crate::controller::{Action, Event};
use crate::error::Error;

verus! {

/// A key of a secret of the cluster.
#[derive(Clone, Debug, PartialEq, Eq)]
pub struct SecretRef {
    pub name: String,
    pub key: String,
}

/// Where the credential for the registry is kept, and of which kind it is.
#[derive(Clone, Debug, PartialEq, Eq)]
pub enum CloudflareSecretRef {
    ApiKey(SecretRef),
    ApiToken(SecretRef),
}

impl CloudflareSecretRef {
    pub open spec fn spec_secret_ref(&self) -> SecretRef {
        match *self {
            CloudflareSecretRef::ApiKey(secret_ref) => secret_ref,
            CloudflareSecretRef::ApiToken(secret_ref) => secret_ref,
        }
    }

    /// The secret that is referenced, whichever kind of credential it holds.
    pub fn secret_ref(&self) -> (secret_ref: &SecretRef)
        ensures
            *secret_ref == self.spec_secret_ref(),
    {
        match self {
            CloudflareSecretRef::ApiKey(secret_ref) => secret_ref,
            CloudflareSecretRef::ApiToken(secret_ref) => secret_ref,
        }
    }
}

/// The account and zone of a tunnel, and how to authenticate for them.
#[derive(Clone, Debug, PartialEq, Eq)]
pub struct CloudflareCredentials {
    pub account_id: String,
    pub zone_id: String,
    pub email: Option<String>,
    pub secret_ref: CloudflareSecretRef,
}

/// What an operator declares of a tunnel.
#[derive(Clone, Debug, PartialEq, Eq)]
pub struct ClusterTunnelSpec {
    pub name: Option<String>,
    pub tunnel_secret_ref: Option<SecretRef>,
    pub cloudflare: CloudflareCredentials,
}

/// A `ClusterTunnel` resource: its own name and what it declares.
#[derive(Clone, Debug, PartialEq, Eq)]
pub struct ClusterTunnel {
    pub name: String,
    pub spec: ClusterTunnelSpec,
}

/// What a pass does next for a tunnel, once the registry was asked for it.
#[derive(Clone, Debug, PartialEq, Eq)]
pub enum TunnelStep {
    /// The tunnel exists: read its credentials from this key of this secret.
    LoadCredentials { tunnel_id: String, secret_name: String, secret_key: String },
    /// The tunnel does not exist: create it under this name.
    CreateTunnel { name: String },
}

pub enum TunnelStepView {
    LoadCredentials { tunnel_id: Seq<char>, secret_name: Seq<char>, secret_key: Seq<char> },
    CreateTunnel { name: Seq<char> },
}

impl View for TunnelStep {
    type V = TunnelStepView;

    open spec fn view(&self) -> TunnelStepView {
        match *self {
            TunnelStep::LoadCredentials {
                tunnel_id,
                secret_name,
                secret_key,
            } => TunnelStepView::LoadCredentials {
                tunnel_id: tunnel_id@,
                secret_name: secret_name@,
                secret_key: secret_key@,
            },
            TunnelStep::CreateTunnel { name } => TunnelStepView::CreateTunnel { name: name@ },
        }
    }
}

/// What a cleanup does for a tunnel, once the registry was asked for it.
#[derive(Clone, Debug, PartialEq, Eq)]
pub enum CleanupStep {
    /// The registry has no such tunnel: nothing is left to do.
    Done,
    /// Delete the tunnel with this id.
    DeleteTunnel { tunnel_id: String },
}

/// The name of the secret that the operator keeps a tunnel's credentials in.
pub open spec fn credentials_secret_name(tunnel_name: Seq<char>) -> Seq<char> {
    "cloudflared-"@ + tunnel_name + "-credentials"@
}

/// The name of the object that holds a tunnel's routing document.
pub open spec fn config_name_of(tunnel_name: Seq<char>) -> Seq<char> {
    "cloudflared-"@ + tunnel_name + "-config"@
}

/// The characters of each text of a run.
pub open spec fn texts(items: Seq<String>) -> Seq<Seq<char>> {
    items.map_values(|item: String| item@)
}

/// What the tunnel's process is started with.
pub open spec fn arguments_for(tunnel_id: Seq<char>) -> Seq<Seq<char>> {
    seq![
        "tunnel"@,
        "--no-autoupdate"@,
        "--metrics"@,
        "0.0.0.0:2000"@,
        "--config"@,
        "/config/config.yaml"@,
        "run"@,
        tunnel_id,
    ]
}

/// The secret that the operator writes for a tunnel it owns.
#[derive(Clone, Debug, PartialEq, Eq)]
pub struct OwnedSecret {
    pub name: String,
    pub key: String,
    pub value: String,
}

/// The workload that runs a tunnel.
#[derive(Clone, Debug, PartialEq, Eq)]
pub struct Workload {
    pub name: String,
    /// The value of the label `app.kubernetes.io/part-of`.
    pub part_of: String,
    /// The value of the label `app.kubernetes.io/name`.
    pub app_name: String,
    /// The annotation of the pod template that changes with the document.
    pub config_hash: String,
    /// The object that holds the routing document.
    pub config_map: String,
    /// The key of that object under which the document is kept.
    pub config_key: String,
    /// Where the object is mounted.
    pub config_mount_path: String,
    /// The secret that holds the tunnel's credentials.
    pub secret_name: String,
    /// The key of the secret that is mounted.
    pub secret_key: String,
    /// Where that key is mounted: the place that the document names.
    pub credentials_mount_path: String,
    pub image: String,
    pub args: Vec<String>,
    pub probe_path: String,
    pub probe_port: i32,
    pub failure_threshold: i32,
    pub initial_delay_seconds: i32,
    pub period_seconds: i32,
}

impl ClusterTunnel {
    /// The name of the tunnel at the registry: the declared name, or the
    /// resource's own.
    pub open spec fn spec_tunnel_name(&self) -> Seq<char> {
        match self.spec.name {
            Some(name) => name@,
            None => self.name@,
        }
    }

    /// The secret and key that hold the tunnel's credentials: the declared
    /// one, or the operator's own.
    pub open spec fn spec_credentials_secret(&self) -> (Seq<char>, Seq<char>) {
        match self.spec.tunnel_secret_ref {
            Some(secret_ref) => (secret_ref.name@, secret_ref.key@),
            None => (credentials_secret_name(self.spec_tunnel_name()), "credentials.json"@),
        }
    }

    /// The name of the tunnel at the registry.
    pub fn tunnel_name(&self) -> (name: String)
        ensures
            name@ == self.spec_tunnel_name(),
    {
        match &self.spec.name {
            Some(name) => name.clone(),
            None => self.name.clone(),
        }
    }

    /// The secret and the key that hold the tunnel's credentials.
    pub fn credentials_secret(&self) -> (secret_ref: SecretRef)
        ensures
            (secret_ref.name@, secret_ref.key@) == self.spec_credentials_secret(),
    {
        match &self.spec.tunnel_secret_ref {
            Some(secret_ref) => SecretRef {
                name: secret_ref.name.clone(),
                key: secret_ref.key.clone(),
            },
            None => {
                let mut name = String::from_str("cloudflared-");
                let tunnel_name = self.tunnel_name();
                name.append(tunnel_name.as_str());
                name.append("-credentials");
                SecretRef { name, key: String::from_str("credentials.json") }
            },
        }
    }

    /// The name of the object that holds the tunnel's routing document.
    pub fn config_name(&self) -> (name: String)
        ensures
            name@ == config_name_of(self.spec_tunnel_name()),
    {
        let mut name = String::from_str("cloudflared-");
        let tunnel_name = self.tunnel_name();
        name.append(tunnel_name.as_str());
        name.append("-config");
        name
    }

    /// Resolves the credential for the registry from the secret that the
    /// resource references; `secret` is that secret, or nothing where the
    /// cluster has none.
    pub fn get_credentials(&self, secret: &Option<Secret>) -> (credentials: Result<
        Credentials,
        Error,
    >)
        ensures
            match credentials {
                Ok(c) => resolved(self.spec.cloudflare, *secret) == Ok::<CredentialsView, Error>(c@),
                Err(e) => resolved(self.spec.cloudflare, *secret) == Err::<CredentialsView, Error>(
                    e,
                ),
            },
    {
        crate::controller::utils::helper::get_credentials(&self.spec.cloudflare, secret)
    }

    /// Decides how a pass comes by the tunnel's credentials, given what the
    /// registry found under the tunnel's name: a tunnel that exists is never
    /// created again, its credentials are read from the cluster; one that
    /// does not exist is created.
    pub fn reconcile(&self, found: &Option<String>) -> (step: TunnelStep)
        ensures
            step@ == match *found {
                Some(tunnel_id) => TunnelStepView::LoadCredentials {
                    tunnel_id: tunnel_id@,
                    secret_name: self.spec_credentials_secret().0,
                    secret_key: self.spec_credentials_secret().1,
                },
                None => TunnelStepView::CreateTunnel { name: self.spec_tunnel_name() },
            },
    {
        match found {
            Some(tunnel_id) => {
                let secret_ref = self.credentials_secret();
                TunnelStep::LoadCredentials {
                    tunnel_id: tunnel_id.clone(),
                    secret_name: secret_ref.name,
                    secret_key: secret_ref.key,
                }
            },
            None => TunnelStep::CreateTunnel { name: self.tunnel_name() },
        }
    }

    /// The stored credentials document of a tunnel that exists, as bytes.
    /// `secret` is the secret that `reconcile` named, or nothing where the
    /// cluster has none. A tunnel whose credentials are not in the cluster
    /// cannot be run: its secret never leaves the registry again.
    pub fn stored_credentials<'a>(&self, secret: &'a Option<Secret>) -> (document: Result<
        &'a Vec<u8>,
        Error,
    >)
        ensures
            match document {
                Ok(bytes) => stored_under(
                    *secret,
                    self.spec_credentials_secret().1,
                    Error::MissingCredentials,
                ) == Ok::<Seq<u8>, Error>(bytes@),
                Err(e) => stored_under(
                    *secret,
                    self.spec_credentials_secret().1,
                    Error::MissingCredentials,
                ) == Err::<Seq<u8>, Error>(e),
            },
    {
        let secret_ref = self.credentials_secret();
        stored_value(secret, secret_ref.key.as_str(), Error::MissingCredentials)
    }

    /// The credentials of a tunnel that exists, once their document was
    /// read: `parsed` is what the document holds, or nothing where it cannot
    /// be read as credentials.
    pub fn loaded_credentials(parsed: Option<TunnelCredentials>) -> (credentials: Result<
        TunnelCredentials,
        Error,
    >)
        ensures
            credentials == match parsed {
                Some(found) => Ok::<TunnelCredentials, Error>(found),
                None => Err::<TunnelCredentials, Error>(Error::InvalidCredentials),
            },
    {
        match parsed {
            Some(found) => Ok(found),
            None => Err(Error::InvalidCredentials),
        }
    }

    /// Decides what a cleanup does, given what the registry found under the
    /// tunnel's name: a tunnel that is gone already needs nothing.
    pub fn cleanup(&self, found: &Option<String>) -> (step: CleanupStep)
        ensures
            match *found {
                Some(tunnel_id) => step matches CleanupStep::DeleteTunnel { tunnel_id: id }
                    && id@ == tunnel_id@,
                None => step == CleanupStep::Done,
            },
    {
        match found {
            Some(tunnel_id) => CleanupStep::DeleteTunnel { tunnel_id: tunnel_id.clone() },
            None => CleanupStep::Done,
        }
    }

    /// What the driver is told after a reconcile or a cleanup that went
    /// through: look again in an hour.
    pub fn next_action(&self) -> (action: Action)
        ensures
            action == Action::Requeue(3600),
    {
        crate::controller::resync()
    }

    /// The secret that the operator writes for the tunnel, or nothing where
    /// the resource names a secret of its own, which is left as it is.
    /// `credentials_json` is the credentials document.
    pub fn owned_secret(&self, credentials_json: String) -> (secret: Option<OwnedSecret>)
        ensures
            secret is Some <==> self.spec.tunnel_secret_ref is None,
            secret is Some ==> {
                &&& secret->0.name@ == credentials_secret_name(self.spec_tunnel_name())
                &&& secret->0.key@ == "credentials.json"@
                &&& secret->0.value@ == credentials_json@
            },
    {
        match &self.spec.tunnel_secret_ref {
            Some(_) => None,
            None => {
                let secret_ref = self.credentials_secret();
                Some(
                    OwnedSecret {
                        name: secret_ref.name,
                        key: secret_ref.key,
                        value: credentials_json,
                    },
                )
            },
        }
    }

    /// The routing document of the tunnel: the one that exists, untouched,
    /// or a fresh one for the tunnel's id with a catch-all alone.
    pub fn config_or_seed(existing: Option<TunnelConfig>, credentials: &TunnelCredentials) -> (config:
        TunnelConfig)
        ensures
            config@ == match existing {
                Some(found) => found@,
                None => seeded(credentials.tunnel_id@),
            },
    {
        match existing {
            Some(found) => found,
            None => TunnelConfig::seed(credentials.tunnel_id.clone()),
        }
    }

    /// The workload that runs the tunnel: it mounts the routing document
    /// and the credentials, runs the tunnel that the document names, carries
    /// the hash of the document's text, and is probed on its metrics port.
    pub fn deploy_cloudflared(&self, config: &TunnelConfig, config_yaml: &str) -> (workload: Workload)
        ensures
            workload.name@ == "cloudflared"@,
            workload.part_of@ == "cloudflare-tunnels-operator"@,
            workload.app_name@ == "cloudflared"@,
            workload.config_hash@ == sha256_hex(config_yaml@),
            workload.config_map@ == config_name_of(self.spec_tunnel_name()),
            workload.config_key@ == "config.yaml"@,
            workload.config_mount_path@ == "/config"@,
            workload.credentials_mount_path@ == "/credentials/credentials.json"@,
            (workload.secret_name@, workload.secret_key@) == self.spec_credentials_secret(),
            workload.image@ == "cloudflare/cloudflared:2024.8.2"@,
            texts(workload.args@) == arguments_for(config.tunnel@),
            workload.probe_path@ == "/ready"@,
            workload.probe_port == 2000,
            workload.failure_threshold == 1,
            workload.initial_delay_seconds == 10,
            workload.period_seconds == 10,
    {
        let secret_ref = self.credentials_secret();
        let mut args: Vec<String> = Vec::new();
        args.push(String::from_str("tunnel"));
        args.push(String::from_str("--no-autoupdate"));
        args.push(String::from_str("--metrics"));
        args.push(String::from_str("0.0.0.0:2000"));
        args.push(String::from_str("--config"));
        args.push(String::from_str("/config/config.yaml"));
        args.push(String::from_str("run"));
        args.push(config.tunnel.clone());
        assert(texts(args@) =~= arguments_for(config.tunnel@));
        Workload {
            name: String::from_str("cloudflared"),
            part_of: String::from_str("cloudflare-tunnels-operator"),
            app_name: String::from_str("cloudflared"),
            config_hash: digest(config_yaml),
            config_map: self.config_name(),
            config_key: String::from_str("config.yaml"),
            config_mount_path: String::from_str("/config"),
            credentials_mount_path: String::from_str("/credentials/credentials.json"),
            secret_name: secret_ref.name,
            secret_key: secret_ref.key,
            image: String::from_str("cloudflare/cloudflared:2024.8.2"),
            args,
            probe_path: String::from_str("/ready"),
            probe_port: 2000,
            failure_threshold: 1,
            initial_delay_seconds: 10,
            period_seconds: 10,
        }
    }
}

/// What a pass over a `ClusterTunnel` does once the registry was asked for
/// the tunnel.
#[derive(Clone, Debug, PartialEq, Eq)]
pub enum Step {
    Apply(TunnelStep),
    Cleanup(CleanupStep),
}

/// Decides what a pass does for a resource and an event, given what the
/// registry found under the tunnel's name: a resource that exists is
/// reconciled, one that is being deleted is cleaned up.
pub fn reconcile(tunnel: &ClusterTunnel, event: Event, found: &Option<String>) -> (step: Step)
    ensures
        match event {
            Event::Apply => step matches Step::Apply(inner) && inner@ == match *found {
                Some(tunnel_id) => TunnelStepView::LoadCredentials {
                    tunnel_id: tunnel_id@,
                    secret_name: tunnel.spec_credentials_secret().0,
                    secret_key: tunnel.spec_credentials_secret().1,
                },
                None => TunnelStepView::CreateTunnel { name: tunnel.spec_tunnel_name() },
            },
            Event::Cleanup => step matches Step::Cleanup(inner) && match *found {
                Some(tunnel_id) => inner matches CleanupStep::DeleteTunnel { tunnel_id: id }
                    && id@ == tunnel_id@,
                None => inner == CleanupStep::Done,
            },
        },
{
    match event {
        Event::Apply => Step::Apply(tunnel.reconcile(found)),
        Event::Cleanup => Step::Cleanup(tunnel.cleanup(found)),
    }
}

/// The tunnel that an `Ingress` is bound to: the first that the cluster
/// lists.
pub fn bind_tunnel(tunnels: &Vec<ClusterTunnel>) -> (bound: Result<&ClusterTunnel, Error>)
    ensures
        match bound {
            Ok(tunnel) => tunnels@.len() > 0 && *tunnel == tunnels@[0],
            Err(e) => tunnels@.len() == 0 && e == Error::NoClusterTunnel,
        },
{
    if tunnels.len() > 0 {
        Ok(&tunnels[0])
    } else {
        Err(Error::NoClusterTunnel)
    }
}

} // verus!
