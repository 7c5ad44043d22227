//! What is asked of the tunnel registry, and what is read from its answers.
//! The client sends nothing itself: it makes the requests and reads the
//! answers, and the caller carries them.

use base64::prelude::BASE64_STANDARD;
use base64::Engine;
use rand::RngCore;
use vstd::prelude::*;
use vstd::string::*;

use crate::cloudflare::{TunnelCredentials, TunnelCredentialsView};
use crate::controller::ingress::cname_of;
use crate::error::Error;

verus! {

/// What authenticates a caller at the registry.
#[derive(Clone, Debug, PartialEq, Eq)]
pub enum Credentials {
    UserAuthKey { email: String, key: String },
    UserAuthToken { token: String },
}

pub enum CredentialsView {
    UserAuthKey { email: Seq<char>, key: Seq<char> },
    UserAuthToken { token: Seq<char> },
}

impl View for Credentials {
    type V = CredentialsView;

    open spec fn view(&self) -> CredentialsView {
        match *self {
            Credentials::UserAuthKey { email, key } => CredentialsView::UserAuthKey {
                email: email@,
                key: key@,
            },
            Credentials::UserAuthToken { token } => CredentialsView::UserAuthToken {
                token: token@,
            },
        }
    }
}

/// What a record of the zone holds.
#[derive(Clone, Debug, PartialEq, Eq)]
pub enum DnsContent {
    /// An alias for another name.
    Cname(String),
    /// Anything else.
    Other,
}

/// A record of the zone, as far as a pass reads it.
#[derive(Clone, Debug, PartialEq, Eq)]
pub struct DnsRecord {
    pub id: String,
    pub name: String,
    pub content: DnsContent,
}

/// Asks the registry for a new tunnel that is configured locally.
#[derive(Clone, Debug, PartialEq, Eq)]
pub struct CreateTunnel {
    pub account_id: String,
    pub name: String,
    pub tunnel_secret: Vec<u8>,
}

/// Asks the registry for the tunnels of a name.
#[derive(Clone, Debug, PartialEq, Eq)]
pub struct ListTunnels {
    pub account_id: String,
    pub name: String,
    pub is_deleted: bool,
}

/// Asks the registry to delete a tunnel.
#[derive(Clone, Debug, PartialEq, Eq)]
pub struct DeleteTunnel {
    pub account_id: String,
    pub tunnel_id: String,
    pub cascade: bool,
}

/// Asks for a new CNAME in a zone.
#[derive(Clone, Debug, PartialEq, Eq)]
pub struct CreateDnsRecord {
    pub zone_id: String,
    pub name: String,
    pub content: String,
    pub proxied: bool,
}

/// Asks for a record of a zone to be rewritten as a CNAME.
#[derive(Clone, Debug, PartialEq, Eq)]
pub struct UpdateDnsRecord {
    pub zone_id: String,
    pub record_id: String,
    pub name: String,
    pub content: String,
    pub proxied: bool,
}

/// Asks for the records of a zone under a name.
#[derive(Clone, Debug, PartialEq, Eq)]
pub struct ListDnsRecords {
    pub zone_id: String,
    pub name: String,
}

/// Asks for a record of a zone to be deleted.
#[derive(Clone, Debug, PartialEq, Eq)]
pub struct DeleteDnsRecord {
    pub zone_id: String,
    pub record_id: String,
}

/// An account at the registry and what authenticates the caller for it.
#[derive(Clone, Debug, PartialEq, Eq)]
pub struct Client {
    pub account_id: String,
    pub credentials: Credentials,
}

/// The standard base64 text, with padding, of a run of bytes.
pub uninterp spec fn base64_standard(bytes: Seq<u8>) -> Seq<char>;

/// `Engine::encode` of `base64::prelude::BASE64_STANDARD`: the standard
/// base64 text of the bytes. The length is bounded because the encoder gives
/// up where it cannot count the characters it will write.
#[verifier::external_body]
fn encode_base64(bytes: &Vec<u8>) -> (text: String)
    requires
        bytes@.len() <= 0x7fff_ffff,
    ensures
        text@ == base64_standard(bytes@),
{
    BASE64_STANDARD.encode(bytes)
}

/// `RngCore::fill_bytes` on `rand::thread_rng()`: 32 bytes from the
/// thread's generator. Nothing is known of the bytes but their number.
#[verifier::external_body]
fn random_secret() -> (secret: Vec<u8>)
    ensures
        secret@.len() == 32,
{
    let mut secret = [0u8; 32];
    rand::thread_rng().fill_bytes(&mut secret);
    secret.to_vec()
}

/// `at` is the first record of `records` whose name is `hostname`.
pub open spec fn first_exact(records: Seq<DnsRecord>, hostname: Seq<char>, at: int) -> bool {
    &&& 0 <= at < records.len()
    &&& records[at].name@ == hostname
    &&& forall|j: int| 0 <= j < at ==> (#[trigger] records[j]).name@ != hostname
}

/// The credentials of a tunnel that the registry made for a request.
pub open spec fn credentials_of(
    account_id: Seq<char>,
    secret: Seq<u8>,
    tunnel_id: Seq<char>,
) -> TunnelCredentialsView {
    TunnelCredentialsView {
        account_tag: account_id,
        tunnel_secret: base64_standard(secret),
        tunnel_id,
    }
}

impl Client {
    /// A client for an account.
    pub fn new(account_id: String, credentials: Credentials) -> (client: Result<Client, Error>)
        ensures
            client is Ok,
            client->Ok_0.account_id == account_id,
            client->Ok_0.credentials == credentials,
    {
        Ok(Client { account_id, credentials })
    }

    /// The request for a new tunnel of a name, with a secret of 32 random
    /// bytes made here.
    pub fn create_tunnel(&self, tunnel_name: &str) -> (request: CreateTunnel)
        ensures
            request.account_id@ == self.account_id@,
            request.name@ == tunnel_name@,
            request.tunnel_secret@.len() == 32,
    {
        CreateTunnel {
            account_id: self.account_id.clone(),
            name: String::from_str(tunnel_name),
            tunnel_secret: random_secret(),
        }
    }

    /// The credentials of the tunnel that the registry made for `request`:
    /// the account, the request's secret in base64, and the id that the
    /// registry gave.
    pub fn tunnel_credentials(&self, request: &CreateTunnel, tunnel_id: &str) -> (credentials:
        TunnelCredentials)
        requires
            request.tunnel_secret@.len() <= 0x7fff_ffff,
        ensures
            credentials@ == credentials_of(self.account_id@, request.tunnel_secret@, tunnel_id@),
    {
        TunnelCredentials {
            account_tag: self.account_id.clone(),
            tunnel_secret: encode_base64(&request.tunnel_secret),
            tunnel_id: String::from_str(tunnel_id),
        }
    }

    /// The request for the tunnels of a name that are not deleted.
    pub fn find_tunnel(&self, tunnel_name: &str) -> (request: ListTunnels)
        ensures
            request.account_id@ == self.account_id@,
            request.name@ == tunnel_name@,
            !request.is_deleted,
    {
        ListTunnels {
            account_id: self.account_id.clone(),
            name: String::from_str(tunnel_name),
            is_deleted: false,
        }
    }

    /// The tunnel that a listing found: the first id, or none.
    pub fn first_tunnel(listed: &Vec<String>) -> (tunnel_id: Option<String>)
        ensures
            tunnel_id is Some <==> listed@.len() > 0,
            tunnel_id is Some ==> tunnel_id->0@ == listed@[0]@,
    {
        if listed.len() > 0 {
            Some(listed[0].clone())
        } else {
            None
        }
    }

    /// The request to delete a tunnel together with what hangs on it.
    pub fn delete_tunnel(&self, tunnel_id: &str) -> (request: DeleteTunnel)
        ensures
            request.account_id@ == self.account_id@,
            request.tunnel_id@ == tunnel_id@,
            request.cascade,
    {
        DeleteTunnel {
            account_id: self.account_id.clone(),
            tunnel_id: String::from_str(tunnel_id),
            cascade: true,
        }
    }

    /// The request for a new proxied CNAME.
    pub fn create_dns_record(&self, zone_id: &str, hostname: &str, content: &str) -> (request:
        CreateDnsRecord)
        ensures
            request.zone_id@ == zone_id@,
            request.name@ == hostname@,
            request.content@ == content@,
            request.proxied,
    {
        CreateDnsRecord {
            zone_id: String::from_str(zone_id),
            name: String::from_str(hostname),
            content: String::from_str(content),
            proxied: true,
        }
    }

    /// The request that rewrites a record as a proxied CNAME for a tunnel,
    /// whatever it held before.
    pub fn update_dns_record(&self, zone_id: &str, domain_id: &str, hostname: &str, tunnel_id: &str) -> (request:
        UpdateDnsRecord)
        ensures
            request.zone_id@ == zone_id@,
            request.record_id@ == domain_id@,
            request.name@ == hostname@,
            request.content@ == cname_of(tunnel_id@),
            request.proxied,
    {
        UpdateDnsRecord {
            zone_id: String::from_str(zone_id),
            record_id: String::from_str(domain_id),
            name: String::from_str(hostname),
            content: crate::controller::ingress::cname_target(tunnel_id),
            proxied: true,
        }
    }

    /// The request for the records of a zone under a name.
    pub fn find_dns_record(&self, zone_id: &str, hostname: &str) -> (request: ListDnsRecords)
        ensures
            request.zone_id@ == zone_id@,
            request.name@ == hostname@,
    {
        ListDnsRecords { zone_id: String::from_str(zone_id), name: String::from_str(hostname) }
    }

    /// The record of a hostname in a listing: the first whose name is the
    /// hostname itself. The registry may list names that only resemble it.
    pub fn exact_record(listed: Vec<DnsRecord>, hostname: &str) -> (record: Option<DnsRecord>)
        ensures
            match record {
                Some(r) => exists|at: int| first_exact(listed@, hostname@, at) && listed@[at] == r,
                None => forall|j: int|
                    0 <= j < listed@.len() ==> (#[trigger] listed@[j]).name@ != hostname@,
            },
    {
        let wanted = String::from_str(hostname);
        let mut rest = listed;
        let ghost mut passed: int = 0;
        while rest.len() > 0
            invariant
                wanted@ == hostname@,
                0 <= passed <= listed@.len(),
                rest@ == listed@.skip(passed),
                forall|j: int| 0 <= j < passed ==> (#[trigger] listed@[j]).name@ != hostname@,
            decreases rest.len(),
        {
            let ghost waiting = rest@;
            let record = rest.remove(0);
            proof {
                assert(waiting[0] == listed@[passed]);
                assert(rest@ =~= listed@.skip(passed + 1));
            }
            if record.name == wanted {
                proof {
                    assert(first_exact(listed@, hostname@, passed));
                }
                return Some(record);
            }
            proof {
                passed = passed + 1;
            }
        }
        None
    }

    /// The request to delete a record of a zone.
    pub fn delete_dns_record(&self, zone_id: &str, domain_id: &str) -> (request: DeleteDnsRecord)
        ensures
            request.zone_id@ == zone_id@,
            request.record_id@ == domain_id@,
    {
        DeleteDnsRecord {
            zone_id: String::from_str(zone_id),
            record_id: String::from_str(domain_id),
        }
    }
}

} // verus!
