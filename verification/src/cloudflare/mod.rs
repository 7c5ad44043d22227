//! The documents that describe a tunnel: its credentials and its routing
//! table, with the two operations that edit the table.

use vstd::prelude::*;
use vstd::string::*;

pub mod client;
pub mod laws;
pub mod text;

pub use crate::cloudflare::client::{Client, Credentials};

verus! {

/// What authenticates a tunnel. Made once, when the tunnel is created.
#[derive(Clone, Debug, PartialEq, Eq)]
pub struct TunnelCredentials {
    pub account_tag: String,
    pub tunnel_secret: String,
    pub tunnel_id: String,
}

pub struct TunnelCredentialsView {
    pub account_tag: Seq<char>,
    pub tunnel_secret: Seq<char>,
    pub tunnel_id: Seq<char>,
}

impl View for TunnelCredentials {
    type V = TunnelCredentialsView;

    open spec fn view(&self) -> TunnelCredentialsView {
        TunnelCredentialsView {
            account_tag: self.account_tag@,
            tunnel_secret: self.tunnel_secret@,
            tunnel_id: self.tunnel_id@,
        }
    }
}

/// A span of time, in whole seconds and the nanoseconds beyond them.
#[derive(Clone, Copy, Debug, PartialEq, Eq)]
pub struct Timeout {
    pub secs: u64,
    pub nanos: u32,
}

/// How the tunnel talks to an origin.
#[derive(Clone, Debug, PartialEq, Eq)]
pub struct OriginRequest {
    pub origin_server_name: Option<String>,
    pub ca_pool: Option<String>,
    pub no_tls_verify: Option<bool>,
    pub tls_timeout: Option<Timeout>,
    pub http_2_origin: Option<bool>,
    pub http_host_header: Option<String>,
    pub disable_chunjed_encoding: Option<bool>,
    pub connect_timeout: Option<Timeout>,
    pub no_happy_eyeball: Option<bool>,
    pub proxy_type: Option<String>,
    pub proxy_address: Option<String>,
    pub proxy_port: Option<i32>,
    pub keep_alive_timeout: Option<Timeout>,
    pub keep_alive_connection: Option<i32>,
    pub tcp_keep_alive: Option<Timeout>,
}

pub struct OriginRequestView {
    pub origin_server_name: Option<Seq<char>>,
    pub ca_pool: Option<Seq<char>>,
    pub no_tls_verify: Option<bool>,
    pub tls_timeout: Option<Timeout>,
    pub http_2_origin: Option<bool>,
    pub http_host_header: Option<Seq<char>>,
    pub disable_chunjed_encoding: Option<bool>,
    pub connect_timeout: Option<Timeout>,
    pub no_happy_eyeball: Option<bool>,
    pub proxy_type: Option<Seq<char>>,
    pub proxy_address: Option<Seq<char>>,
    pub proxy_port: Option<i32>,
    pub keep_alive_timeout: Option<Timeout>,
    pub keep_alive_connection: Option<i32>,
    pub tcp_keep_alive: Option<Timeout>,
}

/// The characters of an optional text.
pub open spec fn text_of(text: Option<String>) -> Option<Seq<char>> {
    match text {
        Some(t) => Some(t@),
        None => None,
    }
}

impl View for OriginRequest {
    type V = OriginRequestView;

    open spec fn view(&self) -> OriginRequestView {
        OriginRequestView {
            origin_server_name: text_of(self.origin_server_name),
            ca_pool: text_of(self.ca_pool),
            no_tls_verify: self.no_tls_verify,
            tls_timeout: self.tls_timeout,
            http_2_origin: self.http_2_origin,
            http_host_header: text_of(self.http_host_header),
            disable_chunjed_encoding: self.disable_chunjed_encoding,
            connect_timeout: self.connect_timeout,
            no_happy_eyeball: self.no_happy_eyeball,
            proxy_type: text_of(self.proxy_type),
            proxy_address: text_of(self.proxy_address),
            proxy_port: self.proxy_port,
            keep_alive_timeout: self.keep_alive_timeout,
            keep_alive_connection: self.keep_alive_connection,
            tcp_keep_alive: self.tcp_keep_alive,
        }
    }
}

/// One line of the routing table: requests for `hostname` whose path matches
/// `path` go to `service`.
#[derive(Clone, Debug, PartialEq, Eq)]
pub struct TunnelIngress {
    pub hostname: Option<String>,
    pub path: Option<String>,
    pub service: String,
    pub origin_request: Option<OriginRequest>,
}

pub struct RuleView {
    pub hostname: Option<Seq<char>>,
    pub path: Option<Seq<char>>,
    pub service: Seq<char>,
    pub origin_request: Option<OriginRequestView>,
}

impl View for TunnelIngress {
    type V = RuleView;

    open spec fn view(&self) -> RuleView {
        RuleView {
            hostname: text_of(self.hostname),
            path: text_of(self.path),
            service: self.service@,
            origin_request: match self.origin_request {
                Some(o) => Some(o@),
                None => None,
            },
        }
    }
}

/// The service of the rule that answers what no other rule matched.
pub open spec fn catch_all_service() -> Seq<char> {
    "http_status:404"@
}

/// The rule that closes a routing table.
pub open spec fn catch_all_rule() -> RuleView {
    RuleView { hostname: None, path: None, service: catch_all_service(), origin_request: None }
}

/// A catch-all matches every host and every path and answers 404.
pub open spec fn is_catch_all(rule: RuleView) -> bool {
    rule.service == catch_all_service() && rule.hostname is None && rule.path is None
}

/// No two rules send to the same service.
pub open spec fn distinct_services(rules: Seq<RuleView>) -> bool {
    forall|i: int, j: int|
        0 <= i < j < rules.len() ==> (#[trigger] rules[i]).service != (#[trigger] rules[j]).service
}

/// A routing table is in order when it is empty, or ends in a catch-all and
/// names each service once.
pub open spec fn table_in_order(rules: Seq<RuleView>) -> bool {
    rules.len() > 0 ==> is_catch_all(rules.last()) && distinct_services(rules)
}

/// `at` is the first place in `rules` that sends to `service`.
pub open spec fn first_place_of(rules: Seq<RuleView>, service: Seq<char>, at: int) -> bool {
    &&& 0 <= at < rules.len()
    &&& rules[at].service == service
    &&& forall|j: int| 0 <= j < at ==> (#[trigger] rules[j]).service != service
}

/// Some rule sends to `service`.
pub open spec fn serves(rules: Seq<RuleView>, service: Seq<char>) -> bool {
    exists|at: int| first_place_of(rules, service, at)
}

/// The first place in `rules` that sends to `service`, where there is one.
pub open spec fn place_of(rules: Seq<RuleView>, service: Seq<char>) -> int {
    choose|at: int| first_place_of(rules, service, at)
}

/// The table after `rule` was put into `rules`: in the place of the first rule
/// with its service; into an empty table with a catch-all behind it; else
/// just before the last rule.
pub open spec fn upserted(rules: Seq<RuleView>, rule: RuleView) -> Seq<RuleView> {
    if serves(rules, rule.service) {
        rules.update(place_of(rules, rule.service), rule)
    } else if rules.len() == 0 {
        seq![rule, catch_all_rule()]
    } else {
        rules.insert(rules.len() - 1, rule)
    }
}

/// `needle` occurs in `hay` as a run of neighbouring characters.
pub open spec fn occurs_in(needle: Seq<char>, hay: Seq<char>) -> bool {
    exists|at: int|
        0 <= at <= hay.len() - needle.len() && #[trigger] hay.subrange(at, at + needle.len())
            == needle
}

/// A rule stays when it is a catch-all or its service does not mention
/// `name`.
pub open spec fn stays(rule: RuleView, name: Seq<char>) -> bool {
    is_catch_all(rule) || !occurs_in(name, rule.service)
}

/// The table without the rules whose service mentions `name`.
pub open spec fn without_service(rules: Seq<RuleView>, name: Seq<char>) -> Seq<RuleView> {
    rules.filter(|rule: RuleView| stays(rule, name))
}

/// The views of a run of rules.
pub open spec fn rules_view(rules: Seq<TunnelIngress>) -> Seq<RuleView> {
    rules.map_values(|rule: TunnelIngress| rule@)
}

/// Two places cannot both be the first that send to a service.
pub proof fn lemma_first_place_is_one(rules: Seq<RuleView>, service: Seq<char>, at: int)
    requires
        first_place_of(rules, service, at),
    ensures
        serves(rules, service),
        place_of(rules, service) == at,
{
    let other = place_of(rules, service);
    assert(first_place_of(rules, service, other));
    if other < at {
        assert(rules[other].service != service);
    }
    if at < other {
        assert(rules[at].service != service);
    }
}

/// Where no rule sends to a service, none is the first to.
pub proof fn lemma_not_served(rules: Seq<RuleView>, service: Seq<char>)
    requires
        forall|j: int| 0 <= j < rules.len() ==> (#[trigger] rules[j]).service != service,
    ensures
        !serves(rules, service),
{
    if serves(rules, service) {
        let at = place_of(rules, service);
        assert(first_place_of(rules, service, at));
        assert(rules[at].service != service);
    }
}

impl TunnelIngress {
    /// The rule that answers 404 to what nothing else matched.
    pub fn catch_all() -> (rule: TunnelIngress)
        ensures
            rule@ == catch_all_rule(),
    {
        TunnelIngress {
            hostname: None,
            path: None,
            service: String::from_str("http_status:404"),
            origin_request: None,
        }
    }

    /// Whether this rule is a catch-all.
    pub fn is_catch_all(&self) -> (yes: bool)
        ensures
            yes == is_catch_all(self@),
    {
        let service = String::from_str("http_status:404");
        self.service == service && self.hostname.is_none() && self.path.is_none()
    }
}

impl Default for TunnelIngress {
    fn default() -> (rule: TunnelIngress)
        ensures
            rule@ == (RuleView {
                hostname: None,
                path: None,
                service: Seq::<char>::empty(),
                origin_request: None,
            }),
    {
        TunnelIngress { hostname: None, path: None, service: String::new(), origin_request: None }
    }
}

/// The routing document of one tunnel.
#[derive(Clone, Debug, PartialEq, Eq)]
pub struct TunnelConfig {
    pub tunnel: String,
    pub origin_request: Option<OriginRequest>,
    pub credentials_file: String,
    pub ingress: Vec<TunnelIngress>,
}

pub struct TunnelConfigView {
    pub tunnel: Seq<char>,
    pub origin_request: Option<OriginRequestView>,
    pub credentials_file: Seq<char>,
    pub ingress: Seq<RuleView>,
}

impl View for TunnelConfig {
    type V = TunnelConfigView;

    open spec fn view(&self) -> TunnelConfigView {
        TunnelConfigView {
            tunnel: self.tunnel@,
            origin_request: match self.origin_request {
                Some(o) => Some(o@),
                None => None,
            },
            credentials_file: self.credentials_file@,
            ingress: rules_view(self.ingress@),
        }
    }
}

impl Default for TunnelConfig {
    fn default() -> (config: TunnelConfig)
        ensures
            config@ == (TunnelConfigView {
                tunnel: Seq::<char>::empty(),
                origin_request: None,
                credentials_file: Seq::<char>::empty(),
                ingress: Seq::<RuleView>::empty(),
            }),
            config.in_order(),
    {
        let config = TunnelConfig {
            tunnel: String::new(),
            origin_request: None,
            credentials_file: String::new(),
            ingress: Vec::new(),
        };
        assert(config@.ingress =~= Seq::<RuleView>::empty());
        config
    }
}

/// The document a tunnel starts with: its id, the place where its
/// credentials are mounted, and a catch-all.
pub open spec fn seeded(tunnel_id: Seq<char>) -> TunnelConfigView {
    TunnelConfigView {
        tunnel: tunnel_id,
        origin_request: None,
        credentials_file: "/credentials/credentials.json"@,
        ingress: seq![catch_all_rule()],
    }
}

impl TunnelConfig {
    /// The document for a tunnel that has none yet.
    pub fn seed(tunnel_id: String) -> (config: TunnelConfig)
        ensures
            config@ == seeded(tunnel_id@),
            config.in_order(),
    {
        let mut ingress: Vec<TunnelIngress> = Vec::new();
        ingress.push(TunnelIngress::catch_all());
        let config = TunnelConfig {
            tunnel: tunnel_id,
            origin_request: None,
            credentials_file: String::from_str("/credentials/credentials.json"),
            ingress,
        };
        assert(config@.ingress =~= seq![catch_all_rule()]);
        config
    }

    /// The table is empty, or ends in a catch-all and names each service
    /// once.
    pub open spec fn in_order(&self) -> bool {
        table_in_order(self@.ingress)
    }

    /// Puts `rule` into the table: in the place of the first rule with the
    /// same service; into an empty table with a catch-all behind it; else
    /// just before the last rule. A table in order stays in order, unless the
    /// rule sends to the catch-all's own service.
    pub fn upsert_rule(&mut self, rule: TunnelIngress)
        ensures
            final(self)@.ingress == upserted(old(self)@.ingress, rule@),
            final(self).tunnel == old(self).tunnel,
            final(self).origin_request == old(self).origin_request,
            final(self).credentials_file == old(self).credentials_file,
            old(self).in_order() && rule@.service != catch_all_service() ==> final(self).in_order(),
    {
        let ghost before = self@.ingress;
        let ghost target = rule@;
        let n: usize = self.ingress.len();
        let mut i: usize = 0;
        while i < n
            invariant
                i <= n,
                n == self.ingress@.len(),
                *self == *old(self),
                before == self@.ingress,
                target == rule@,
                forall|j: int| 0 <= j < i ==> (#[trigger] before[j]).service != target.service,
            decreases n - i,
        {
            if self.ingress[i].service == rule.service {
                self.ingress.set(i, rule);
                proof {
                    assert(before[i as int].service == target.service);
                    lemma_first_place_is_one(before, target.service, i as int);
                    assert(self@.ingress =~= before.update(i as int, target));
                    crate::cloudflare::laws::lemma_upsert_keeps_order(before, target);
                }
                return ;
            }
            i += 1;
        }
        proof {
            lemma_not_served(before, target.service);
            crate::cloudflare::laws::lemma_upsert_keeps_order(before, target);
        }
        if n == 0 {
            self.ingress.push(rule);
            self.ingress.push(TunnelIngress::catch_all());
            assert(self@.ingress =~= seq![target, catch_all_rule()]);
        } else {
            self.ingress.insert(n - 1, rule);
            assert(self@.ingress =~= before.insert(n - 1, target));
        }
    }

    /// Drops every rule whose service mentions `name`, and keeps the
    /// catch-all. The rules that stay keep their order; a table in order
    /// stays in order.
    pub fn remove_rules_referencing_service(&mut self, name: &str)
        ensures
            final(self)@.ingress == without_service(old(self)@.ingress, name@),
            final(self).tunnel == old(self).tunnel,
            final(self).origin_request == old(self).origin_request,
            final(self).credentials_file == old(self).credentials_file,
            old(self).in_order() ==> final(self).in_order(),
    {
        let ghost before = self@.ingress;
        let ghost keep = |rule: RuleView| stays(rule, name@);
        let mut rest: Vec<TunnelIngress> = Vec::new();
        core::mem::swap(&mut self.ingress, &mut rest);
        let ghost mut done: int = 0;
        assert(before.take(0) =~= Seq::<RuleView>::empty());
        assert(rules_view(rest@) =~= before.skip(0));
        proof {
            reveal(Seq::filter);
            assert(self@.ingress =~= before.take(0).filter(keep));
        }
        while rest.len() > 0
            invariant
                0 <= done <= before.len(),
                rules_view(rest@) == before.skip(done),
                self@.ingress == before.take(done).filter(keep),
                self.tunnel == old(self).tunnel,
                self.origin_request == old(self).origin_request,
                self.credentials_file == old(self).credentials_file,
                keep == |rule: RuleView| stays(rule, name@),
            decreases rest.len(),
        {
            let ghost kept = self@.ingress;
            let ghost waiting = rest@;
            let rule = rest.remove(0);
            proof {
                assert(rules_view(waiting).len() == waiting.len());
                assert(before.skip(done).len() == before.len() - done);
                assert(rules_view(waiting)[0] == waiting[0]@);
                assert(before.skip(done)[0] == before[done]);
                assert(rule@ == before[done]);
                assert forall|k: int| 0 <= k < rest@.len() implies rules_view(rest@)[k]
                    == before.skip(done + 1)[k] by {
                    assert(rest@[k] == waiting[k + 1]);
                    assert(rules_view(waiting)[k + 1] == waiting[k + 1]@);
                    assert(before.skip(done)[k + 1] == before[done + k + 1]);
                }
                assert(rules_view(rest@) =~= before.skip(done + 1));
                assert(before.take(done + 1).drop_last() =~= before.take(done));
                assert(before.take(done + 1).last() == before[done]);
                reveal(Seq::filter);
            }
            let mentioned = crate::cloudflare::text::contains(rule.service.as_str(), name);
            if rule.is_catch_all() || !mentioned {
                self.ingress.push(rule);
                assert(self@.ingress =~= kept.push(before[done]));
            } else {
                assert(self@.ingress =~= kept);
            }
            proof {
                done = done + 1;
            }
        }
        proof {
            assert(before.skip(done).len() == 0);
            assert(before.take(done) =~= before);
            crate::cloudflare::laws::lemma_removal_keeps_order(before, name@);
        }
    }
}

} // verus!
