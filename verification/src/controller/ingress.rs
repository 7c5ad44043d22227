//! From an `Ingress` to routes of the tunnel and records of the zone.

use vstd::prelude::*;
use vstd::string::*;

use crate::cloudflare::client::{DnsContent, DnsRecord};
use crate::cloudflare::text::{append_decimal, decimal};
use crate::cloudflare::{
    catch_all_service, text_of, upserted, without_service, RuleView, TunnelConfig,
    TunnelIngress,
};
use crate::controller::utils::helper::{digest, sha256_hex};
use crate::controller::{Action, Event, ANNOTATION_CONFIG_HASH};
use crate::error::Error;

verus! {

/// The port of a backend: by number, or by the name it has in the service.
#[derive(Clone, Debug, PartialEq, Eq)]
pub struct ServiceBackendPort {
    pub number: Option<i32>,
    pub name: Option<String>,
}

/// The service that a path sends to.
#[derive(Clone, Debug, PartialEq, Eq)]
pub struct IngressServiceBackend {
    pub name: String,
    pub port: Option<ServiceBackendPort>,
}

/// One path of a host, with how it is matched and where it sends.
#[derive(Clone, Debug, PartialEq, Eq)]
pub struct HTTPIngressPath {
    pub path: Option<String>,
    pub path_type: String,
    pub service: Option<IngressServiceBackend>,
}

/// The paths of one host. Without a host the paths hold for every host.
#[derive(Clone, Debug, PartialEq, Eq)]
pub struct IngressRule {
    pub host: Option<String>,
    pub paths: Vec<HTTPIngressPath>,
}

/// What a pass reads of an `Ingress` object.
#[derive(Clone, Debug, PartialEq, Eq)]
pub struct Ingress {
    pub name: String,
    pub namespace: Option<String>,
    /// The annotation `kubernetes.io/ingress.class`.
    pub class_annotation: Option<String>,
    /// The field `ingressClassName`.
    pub class_name: Option<String>,
    /// The declared rules; `None` where the object has no spec.
    pub rules: Option<Vec<IngressRule>>,
}

/// One port of a cluster service.
#[derive(Clone, Debug, PartialEq, Eq)]
pub struct ServicePort {
    pub name: Option<String>,
    pub port: i32,
}

/// What a pass over an `Ingress` has to do.
#[derive(Clone, Copy, Debug, PartialEq, Eq, Structural)]
pub enum Pass {
    /// The object belongs to another class: wait until it changes.
    Ignore,
    /// The object declares nothing: look again in an hour.
    Nothing,
    /// Project the rules into the routing table and the zone.
    Apply,
    /// Take the rules out of the routing table and the zone.
    Cleanup,
}

/// The class an `Ingress` declares: its annotation, else its class name.
pub open spec fn declared_class(ingress: Ingress) -> Option<Seq<char>> {
    match ingress.class_annotation {
        Some(class) => Some(class@),
        None => text_of(ingress.class_name),
    }
}

/// What a pass has to do for an object, an operator's class and an event.
pub open spec fn pass_for(ingress: Ingress, operator_class: Option<String>, event: Event) -> Pass {
    if declared_class(ingress) != text_of(operator_class) {
        Pass::Ignore
    } else if ingress.rules is None {
        Pass::Nothing
    } else {
        match event {
            Event::Apply => Pass::Apply,
            Event::Cleanup => Pass::Cleanup,
        }
    }
}

fn same_text(a: &Option<String>, b: &Option<String>) -> (same: bool)
    ensures
        same == (text_of(*a) == text_of(*b)),
{
    match (a, b) {
        (Some(x), Some(y)) => *x == *y,
        (None, None) => true,
        _ => false,
    }
}

fn clone_text(text: &Option<String>) -> (copy: Option<String>)
    ensures
        text_of(copy) == text_of(*text),
{
    match text {
        Some(t) => Some(t.clone()),
        None => None,
    }
}

impl Ingress {
    /// Whether the object is of the operator's class: the class it declares,
    /// by annotation or else by name, is the operator's, or neither has one.
    pub fn matches_class(&self, operator_class: &Option<String>) -> (yes: bool)
        ensures
            yes == (declared_class(*self) == text_of(*operator_class)),
    {
        match &self.class_annotation {
            Some(_) => same_text(&self.class_annotation, operator_class),
            None => same_text(&self.class_name, operator_class),
        }
    }

    /// The namespace that the object's services live in.
    pub fn namespace_or_default(&self) -> (namespace: String)
        ensures
            namespace@ == match self.namespace {
                Some(ns) => ns@,
                None => "default"@,
            },
    {
        match &self.namespace {
            Some(ns) => ns.clone(),
            None => String::from_str("default"),
        }
    }
}

/// The change that rolls the workload out again after the document changed.
#[derive(Clone, Debug, PartialEq, Eq)]
pub struct WorkloadPatch {
    /// The workload's name.
    pub name: String,
    /// The annotation of the pod template that carries the hash.
    pub annotation: String,
    /// The hash of the document's text.
    pub config_hash: String,
}

/// The patch that makes the workload pick up a document: it sets the
/// annotation of the pod template to the hash of the document's text.
pub fn patch_deployment(config_yaml: &str) -> (patch: WorkloadPatch)
    ensures
        patch.name@ == "cloudflared"@,
        patch.annotation@ == ANNOTATION_CONFIG_HASH@,
        patch.config_hash@ == sha256_hex(config_yaml@),
{
    WorkloadPatch {
        name: String::from_str("cloudflared"),
        annotation: String::from_str(ANNOTATION_CONFIG_HASH),
        config_hash: digest(config_yaml),
    }
}

/// One write that closes a pass over an `Ingress`.
#[derive(Clone, Debug, PartialEq, Eq)]
pub enum Effect {
    /// Store the routing document.
    PersistConfig { document: String },
    /// Roll the workload out with the hash of the document.
    PatchWorkload { patch: WorkloadPatch },
    /// Write the load balancer hostname into the status of the `Ingress`.
    ReportLoadBalancer { hostname: String },
}

pub enum EffectView {
    PersistConfig { document: Seq<char> },
    PatchWorkload { name: Seq<char>, annotation: Seq<char>, config_hash: Seq<char> },
    ReportLoadBalancer { hostname: Seq<char> },
}

impl View for Effect {
    type V = EffectView;

    open spec fn view(&self) -> EffectView {
        match *self {
            Effect::PersistConfig { document } => EffectView::PersistConfig { document: document@ },
            Effect::PatchWorkload { patch } => EffectView::PatchWorkload {
                name: patch.name@,
                annotation: patch.annotation@,
                config_hash: patch.config_hash@,
            },
            Effect::ReportLoadBalancer { hostname } => EffectView::ReportLoadBalancer {
                hostname: hostname@,
            },
        }
    }
}

/// The views of a run of effects.
pub open spec fn effects_view(effects: Seq<Effect>) -> Seq<EffectView> {
    effects.map_values(|effect: Effect| effect@)
}

/// The writes that close a pass, in the order in which they are made: the
/// document is stored, then the workload is rolled out with the document's
/// hash, and after an apply the status of the `Ingress` is written last. A
/// pass that did nothing writes nothing.
pub open spec fn closing_effects_of(pass: Pass, tunnel_id: Seq<char>, document: Seq<char>) -> Seq<
    EffectView,
> {
    let store = EffectView::PersistConfig { document };
    let roll_out = EffectView::PatchWorkload {
        name: "cloudflared"@,
        annotation: ANNOTATION_CONFIG_HASH@,
        config_hash: sha256_hex(document),
    };
    match pass {
        Pass::Apply => seq![
            store,
            roll_out,
            EffectView::ReportLoadBalancer { hostname: cname_of(tunnel_id) },
        ],
        Pass::Cleanup => seq![store, roll_out],
        _ => Seq::<EffectView>::empty(),
    }
}

/// Decides the writes that close a pass, once every rule was gone through.
/// `config_yaml` is the text of the routing document of the tunnel
/// `tunnel_id` as it is now.
pub fn closing_effects(pass: Pass, tunnel_id: &str, config_yaml: &str) -> (effects: Vec<Effect>)
    ensures
        effects_view(effects@) == closing_effects_of(pass, tunnel_id@, config_yaml@),
{
    let mut effects: Vec<Effect> = Vec::new();
    match pass {
        Pass::Apply => {
            effects.push(Effect::PersistConfig { document: String::from_str(config_yaml) });
            effects.push(Effect::PatchWorkload { patch: patch_deployment(config_yaml) });
            effects.push(Effect::ReportLoadBalancer { hostname: cname_target(tunnel_id) });
        },
        Pass::Cleanup => {
            effects.push(Effect::PersistConfig { document: String::from_str(config_yaml) });
            effects.push(Effect::PatchWorkload { patch: patch_deployment(config_yaml) });
        },
        _ => {},
    }
    assert(effects_view(effects@) =~= closing_effects_of(pass, tunnel_id@, config_yaml@));
    effects
}

/// Decides what a pass over an `Ingress` does: nothing but wait for an
/// object of another class, nothing for an object without rules, else what
/// the event asks for.
pub fn reconcile(ingress: &Ingress, operator_class: &Option<String>, event: Event) -> (pass: Pass)
    ensures
        pass == pass_for(*ingress, *operator_class, event),
{
    if !ingress.matches_class(operator_class) {
        Pass::Ignore
    } else if ingress.rules.is_none() {
        Pass::Nothing
    } else {
        match event {
            Event::Apply => Pass::Apply,
            Event::Cleanup => Pass::Cleanup,
        }
    }
}

/// The routing document that the passes over every `Ingress` share:
/// `parsed` is what the stored document holds, or nothing where there is
/// none or it cannot be read.
pub fn shared_config(parsed: Option<TunnelConfig>) -> (config: Result<TunnelConfig, Error>)
    ensures
        config == match parsed {
            Some(found) => Ok::<TunnelConfig, Error>(found),
            None => Err::<TunnelConfig, Error>(Error::MissingConfig),
        },
{
    match parsed {
        Some(found) => Ok(found),
        None => Err(Error::MissingConfig),
    }
}

/// What the driver is told after a pass that went through.
pub fn action_after(pass: Pass) -> (action: Action)
    ensures
        action == match pass {
            Pass::Ignore => Action::AwaitChange,
            _ => Action::Requeue(3600),
        },
{
    match pass {
        Pass::Ignore => Action::AwaitChange,
        _ => crate::controller::resync(),
    }
}

/// The characters that mean something in a regular expression.
pub open spec fn is_meta_character(c: char) -> bool {
    c == '\\' || c == '.' || c == '+' || c == '*' || c == '?' || c == '(' || c == ')' || c == '|'
        || c == '[' || c == ']' || c == '{' || c == '}' || c == '^' || c == '$' || c == '#' || c
        == '&' || c == '-' || c == '~'
}

/// A text with a backslash before each of its meta characters.
pub open spec fn escaped(text: Seq<char>) -> Seq<char>
    decreases text.len(),
{
    if text.len() == 0 {
        Seq::<char>::empty()
    } else if is_meta_character(text.last()) {
        escaped(text.drop_last()).push('\\').push(text.last())
    } else {
        escaped(text.drop_last()).push(text.last())
    }
}

/// `regex::escape`: the text with a backslash put before each character that
/// has a meaning in a regular expression, and nothing else changed.
#[verifier::external_body]
fn escape(text: &str) -> (pattern: String)
    ensures
        pattern@ == escaped(text@),
{
    regex::escape(text)
}

/// The pattern for a path: the path taken literally from the start of what
/// is asked for; an exact path may only be followed by one slash.
pub open spec fn pattern_of(path: Seq<char>, path_type: Seq<char>) -> Seq<char> {
    if path_type == "Exact"@ {
        "^"@ + escaped(path) + "\\/?$"@
    } else {
        "^"@ + escaped(path)
    }
}

/// Turns a path of an `Ingress` into an anchored regular expression.
pub fn anchored_pattern(path: &str, path_type: &str) -> (pattern: String)
    ensures
        pattern@ == pattern_of(path@, path_type@),
{
    let mut pattern = String::from_str("^");
    let literal = escape(path);
    pattern.append(literal.as_str());
    let exact = String::from_str("Exact");
    let given = String::from_str(path_type);
    if given == exact {
        pattern.append("\\/?$");
    }
    pattern
}

/// Where a route sends: `http://<service>.<namespace>.svc:<port>`.
pub open spec fn service_url_of(service: Seq<char>, namespace: Seq<char>, port: int) -> Seq<char> {
    "http://"@ + service + "."@ + namespace + ".svc:"@ + decimal(port)
}

/// The address of a cluster service as the tunnel reaches it.
pub fn service_url(service: &str, namespace: &str, port: i32) -> (url: String)
    ensures
        url@ == service_url_of(service@, namespace@, port as int),
{
    let mut url = String::from_str("http://");
    url.append(service);
    url.append(".");
    url.append(namespace);
    url.append(".svc:");
    append_decimal(&mut url, port);
    url
}

/// The address of a cluster service is never the catch-all's service.
pub proof fn lemma_service_url_is_a_route(service: Seq<char>, namespace: Seq<char>, port: int)
    ensures
        service_url_of(service, namespace, port) != catch_all_service(),
{
    reveal_strlit("http://");
    reveal_strlit("http_status:404");
    let url = service_url_of(service, namespace, port);
    assert(url[4] == "http://"@[4]);
    assert(url[4] == ':');
    assert(catch_all_service()[4] == '_');
}

/// `at` is the first port of `ports` with the name `name`.
pub open spec fn first_named(ports: Seq<ServicePort>, name: Seq<char>, at: int) -> bool {
    &&& 0 <= at < ports.len()
    &&& text_of(ports[at].name) == Some(name)
    &&& forall|j: int| 0 <= j < at ==> text_of((#[trigger] ports[j]).name) != Some(name)
}

/// The number of the first port with the name `name`, where there is one.
pub open spec fn named_port(ports: Seq<ServicePort>, name: Seq<char>) -> Option<i32> {
    if exists|at: int| first_named(ports, name, at) {
        Some(ports[choose|at: int| first_named(ports, name, at)].port)
    } else {
        None
    }
}

proof fn lemma_first_named_is_one(ports: Seq<ServicePort>, name: Seq<char>, at: int)
    requires
        first_named(ports, name, at),
    ensures
        named_port(ports, name) == Some(ports[at].port),
{
    let other = choose|at: int| first_named(ports, name, at);
    assert(first_named(ports, name, other));
    if other < at {
        assert(text_of(ports[other].name) != Some(name));
    }
    if at < other {
        assert(text_of(ports[at].name) != Some(name));
    }
}

proof fn lemma_not_named(ports: Seq<ServicePort>, name: Seq<char>)
    requires
        forall|j: int| 0 <= j < ports.len() ==> text_of((#[trigger] ports[j]).name) != Some(name),
    ensures
        named_port(ports, name) is None,
{
    if exists|at: int| first_named(ports, name, at) {
        let at = choose|at: int| first_named(ports, name, at);
        assert(text_of(ports[at].name) != Some(name));
    }
}

/// Looks a port up by its name in the ports of a service.
pub fn find_named_port(ports: &Vec<ServicePort>, name: &str) -> (port: Option<i32>)
    ensures
        port == named_port(ports@, name@),
{
    let wanted = String::from_str(name);
    let n: usize = ports.len();
    let mut i: usize = 0;
    while i < n
        invariant
            i <= n,
            n == ports@.len(),
            wanted@ == name@,
            forall|j: int| 0 <= j < i ==> text_of((#[trigger] ports@[j]).name) != Some(name@),
        decreases n - i,
    {
        let found = match &ports[i].name {
            Some(port_name) => *port_name == wanted,
            None => false,
        };
        if found {
            proof {
                lemma_first_named_is_one(ports@, name@, i as int);
            }
            return Some(ports[i].port);
        }
        i += 1;
    }
    proof {
        lemma_not_named(ports@, name@);
    }
    None
}

/// Whether the port of a path has to be looked up in its service: it has a
/// backend service and a port that is given by name alone.
pub open spec fn needs_lookup(path: HTTPIngressPath) -> bool {
    match path.service {
        Some(backend) => match backend.port {
            Some(port) => port.number is None && port.name is Some,
            None => false,
        },
        None => false,
    }
}

/// The port a path sends to: its number; else the number that its name has
/// in the ports of the service, where the service has ports and one of that
/// name; else none.
pub open spec fn resolved_port(path: HTTPIngressPath, ports: Option<Vec<ServicePort>>) -> Option<
    i32,
> {
    match path.service {
        Some(backend) => match backend.port {
            Some(port) => match port.number {
                Some(number) => Some(number),
                None => match (port.name, ports) {
                    (Some(name), Some(list)) => named_port(list@, name@),
                    _ => None,
                },
            },
            None => None,
        },
        None => None,
    }
}

/// The route that a path of a host gives, or none where the path has no
/// backend service or no port can be found for it.
pub open spec fn route_of(
    host: Option<String>,
    path: HTTPIngressPath,
    namespace: Seq<char>,
    ports: Option<Vec<ServicePort>>,
) -> Option<RuleView> {
    match resolved_port(path, ports) {
        Some(port) => Some(
            RuleView {
                hostname: text_of(host),
                path: match path.path {
                    Some(p) => Some(pattern_of(p@, path.path_type@)),
                    None => None,
                },
                service: service_url_of(path.service->0.name@, namespace, port as int),
                origin_request: None,
            },
        ),
        None => None,
    }
}

impl HTTPIngressPath {
    /// The service whose ports have to be fetched before the path can be
    /// routed, where its port is given by name alone.
    pub fn service_to_look_up(&self) -> (service: Option<String>)
        ensures
            service is Some <==> needs_lookup(*self),
            service is Some ==> service->0@ == self.service->0.name@,
    {
        match &self.service {
            Some(backend) => match &backend.port {
                Some(port) => {
                    if port.number.is_none() && port.name.is_some() {
                        Some(backend.name.clone())
                    } else {
                        None
                    }
                },
                None => None,
            },
            None => None,
        }
    }

    /// The port the path sends to, given the ports of its service where they
    /// were looked up.
    pub fn resolve_port(&self, ports: &Option<Vec<ServicePort>>) -> (port: Option<i32>)
        ensures
            port == resolved_port(*self, *ports),
    {
        match &self.service {
            Some(backend) => match &backend.port {
                Some(port) => match port.number {
                    Some(number) => Some(number),
                    None => match (&port.name, ports) {
                        (Some(name), Some(list)) => find_named_port(list, name.as_str()),
                        _ => None,
                    },
                },
                None => None,
            },
            None => None,
        }
    }

    /// The route for this path under a host: the host, the path as an
    /// anchored pattern, and the address of the backend service.
    pub fn route(&self, host: &Option<String>, namespace: &str, ports: &Option<Vec<ServicePort>>) -> (rule:
        Option<TunnelIngress>)
        ensures
            match rule {
                Some(r) => route_of(*host, *self, namespace@, *ports) == Some(r@),
                None => route_of(*host, *self, namespace@, *ports) is None,
            },
    {
        match self.resolve_port(ports) {
            Some(port) => {
                let backend = self.service.as_ref().unwrap();
                let pattern = match &self.path {
                    Some(p) => Some(anchored_pattern(p.as_str(), self.path_type.as_str())),
                    None => None,
                };
                Some(
                    TunnelIngress {
                        hostname: clone_text(host),
                        path: pattern,
                        service: service_url(backend.name.as_str(), namespace, port),
                        origin_request: None,
                    },
                )
            },
            None => None,
        }
    }
}

/// The ports that were looked up for the path at a place, if any were.
pub open spec fn lookup_at(lookups: Seq<Option<Vec<ServicePort>>>, at: int) -> Option<
    Vec<ServicePort>,
> {
    if 0 <= at < lookups.len() {
        lookups[at]
    } else {
        None
    }
}

/// The table after the first `upto` paths of a host were routed, in the
/// order in which they are declared.
pub open spec fn with_paths(
    rules: Seq<RuleView>,
    host: Option<String>,
    paths: Seq<HTTPIngressPath>,
    namespace: Seq<char>,
    lookups: Seq<Option<Vec<ServicePort>>>,
    upto: int,
) -> Seq<RuleView>
    decreases upto,
{
    if upto <= 0 {
        rules
    } else {
        let before = with_paths(rules, host, paths, namespace, lookups, upto - 1);
        match route_of(host, paths[upto - 1], namespace, lookup_at(lookups, upto - 1)) {
            Some(rule) => upserted(before, rule),
            None => before,
        }
    }
}

/// The table after the services of the first `upto` paths were taken out.
pub open spec fn without_paths(rules: Seq<RuleView>, paths: Seq<HTTPIngressPath>, upto: int) -> Seq<
    RuleView,
>
    decreases upto,
{
    if upto <= 0 {
        rules
    } else {
        let before = without_paths(rules, paths, upto - 1);
        match paths[upto - 1].service {
            Some(backend) => without_service(before, backend.name@),
            None => before,
        }
    }
}

impl IngressRule {
    /// Routes every path of this host into the table, one after the other.
    /// `lookups` holds, for each path in turn, the ports of its service
    /// where they had to be fetched and the service has any. A path without
    /// a backend service, or whose port cannot be found, is passed over. A
    /// table in order stays in order.
    pub fn apply(&self, config: &mut TunnelConfig, namespace: &str, lookups: &Vec<Option<Vec<ServicePort>>>)
        ensures
            final(config)@.ingress == with_paths(
                old(config)@.ingress,
                self.host,
                self.paths@,
                namespace@,
                lookups@,
                self.paths@.len() as int,
            ),
            final(config).tunnel == old(config).tunnel,
            final(config).origin_request == old(config).origin_request,
            final(config).credentials_file == old(config).credentials_file,
            old(config).in_order() ==> final(config).in_order(),
    {
        let n: usize = self.paths.len();
        let nothing: Option<Vec<ServicePort>> = None;
        let mut i: usize = 0;
        while i < n
            invariant
                i <= n,
                n == self.paths@.len(),
                nothing is None,
                old(config).in_order() ==> config.in_order(),
                config@.ingress == with_paths(
                    old(config)@.ingress,
                    self.host,
                    self.paths@,
                    namespace@,
                    lookups@,
                    i as int,
                ),
                config.tunnel == old(config).tunnel,
                config.origin_request == old(config).origin_request,
                config.credentials_file == old(config).credentials_file,
            decreases n - i,
        {
            let ports = if i < lookups.len() {
                &lookups[i]
            } else {
                &nothing
            };
            match self.paths[i].route(&self.host, namespace, ports) {
                Some(rule) => {
                    proof {
                        lemma_service_url_is_a_route(
                            self.paths@[i as int].service->0.name@,
                            namespace@,
                            resolved_port(self.paths@[i as int], *ports)->0 as int,
                        );
                    }
                    config.upsert_rule(rule);
                },
                None => {},
            }
            i += 1;
        }
    }

    /// Takes out of the table the rules of every service that a path of this
    /// host sends to.
    pub fn cleanup(&self, config: &mut TunnelConfig)
        ensures
            final(config)@.ingress == without_paths(
                old(config)@.ingress,
                self.paths@,
                self.paths@.len() as int,
            ),
            final(config).tunnel == old(config).tunnel,
            final(config).origin_request == old(config).origin_request,
            final(config).credentials_file == old(config).credentials_file,
            old(config).in_order() ==> final(config).in_order(),
    {
        let n: usize = self.paths.len();
        let mut i: usize = 0;
        while i < n
            invariant
                i <= n,
                n == self.paths@.len(),
                config@.ingress == without_paths(old(config)@.ingress, self.paths@, i as int),
                config.tunnel == old(config).tunnel,
                config.origin_request == old(config).origin_request,
                config.credentials_file == old(config).credentials_file,
                old(config).in_order() ==> config.in_order(),
            decreases n - i,
        {
            match &self.paths[i].service {
                Some(backend) => {
                    config.remove_rules_referencing_service(backend.name.as_str());
                },
                None => {},
            }
            i += 1;
        }
    }

    /// The name under which the host is kept in the zone: the host, or `@`
    /// for the zone itself where the rule names none.
    pub fn dns_hostname(&self) -> (hostname: String)
        ensures
            hostname@ == match self.host {
                Some(host) => host@,
                None => "@"@,
            },
    {
        match &self.host {
            Some(host) => host.clone(),
            None => String::from_str("@"),
        }
    }
}

/// Where the records of a tunnel point: `<tunnel id>.cfargotunnel.com`.
pub open spec fn cname_of(tunnel_id: Seq<char>) -> Seq<char> {
    tunnel_id + ".cfargotunnel.com"@
}

/// The name that the records of a tunnel point at, which is also the load
/// balancer hostname in the status of an `Ingress`.
pub fn cname_target(tunnel_id: &str) -> (target: String)
    ensures
        target@ == cname_of(tunnel_id@),
{
    let mut target = String::from_str(tunnel_id);
    target.append(".cfargotunnel.com");
    target
}

/// One write to the zone, or none.
#[derive(Clone, Debug, PartialEq, Eq)]
pub enum DnsAction {
    /// The zone is as it should be.
    Skip,
    /// Rewrite the record with this id as a proxied CNAME for the tunnel.
    Update { record_id: String, hostname: String, tunnel_id: String },
    /// Create a proxied CNAME with this content.
    Create { hostname: String, content: String },
    /// Delete the record with this id.
    Delete { record_id: String },
}

pub enum DnsActionView {
    Skip,
    Update { record_id: Seq<char>, hostname: Seq<char>, tunnel_id: Seq<char> },
    Create { hostname: Seq<char>, content: Seq<char> },
    Delete { record_id: Seq<char> },
}

impl View for DnsAction {
    type V = DnsActionView;

    open spec fn view(&self) -> DnsActionView {
        match *self {
            DnsAction::Skip => DnsActionView::Skip,
            DnsAction::Update { record_id, hostname, tunnel_id } => DnsActionView::Update {
                record_id: record_id@,
                hostname: hostname@,
                tunnel_id: tunnel_id@,
            },
            DnsAction::Create { hostname, content } => DnsActionView::Create {
                hostname: hostname@,
                content: content@,
            },
            DnsAction::Delete { record_id } => DnsActionView::Delete { record_id: record_id@ },
        }
    }
}

/// A record that is a CNAME for the tunnel already.
pub open spec fn points_at(record: DnsRecord, tunnel_id: Seq<char>) -> bool {
    match record.content {
        DnsContent::Cname(content) => content@ == cname_of(tunnel_id),
        DnsContent::Other => false,
    }
}

/// The write that brings a hostname in line with a tunnel: none where its
/// record is a CNAME for the tunnel; an update where it has another record;
/// a new CNAME for the tunnel where it has none.
pub open spec fn dns_write_for(existing: Option<DnsRecord>, hostname: Seq<char>, tunnel_id: Seq<char>) -> DnsActionView {
    match existing {
        Some(record) => if points_at(record, tunnel_id) {
            DnsActionView::Skip
        } else {
            DnsActionView::Update { record_id: record.id@, hostname, tunnel_id }
        },
        None => DnsActionView::Create { hostname, content: cname_of(tunnel_id) },
    }
}

/// Decides the one write, if any, that makes `hostname` a CNAME for the
/// tunnel, given the record that the zone holds for it now.
pub fn plan_dns(existing: &Option<DnsRecord>, hostname: &str, tunnel_id: &str) -> (action: DnsAction)
    ensures
        action@ == dns_write_for(*existing, hostname@, tunnel_id@),
{
    match existing {
        Some(record) => {
            let target = cname_target(tunnel_id);
            let in_line = match &record.content {
                DnsContent::Cname(content) => *content == target,
                DnsContent::Other => false,
            };
            if in_line {
                DnsAction::Skip
            } else {
                DnsAction::Update {
                    record_id: record.id.clone(),
                    hostname: String::from_str(hostname),
                    tunnel_id: String::from_str(tunnel_id),
                }
            }
        },
        None => DnsAction::Create {
            hostname: String::from_str(hostname),
            content: cname_target(tunnel_id),
        },
    }
}

/// Decides what a cleanup does to the record of a hostname: delete it
/// where there is one.
pub fn plan_dns_cleanup(existing: &Option<DnsRecord>) -> (action: DnsAction)
    ensures
        action@ == match *existing {
            Some(record) => DnsActionView::Delete { record_id: record.id@ },
            None => DnsActionView::Skip,
        },
{
    match existing {
        Some(record) => DnsAction::Delete { record_id: record.id.clone() },
        None => DnsAction::Skip,
    }
}

/// The record that the zone holds for a hostname once a write was made.
pub open spec fn content_after(existing: Option<DnsRecord>, action: DnsActionView) -> Option<Seq<char>> {
    match action {
        DnsActionView::Skip => match existing {
            Some(record) => match record.content {
                DnsContent::Cname(content) => Some(content@),
                DnsContent::Other => None,
            },
            None => None,
        },
        DnsActionView::Update { record_id, hostname, tunnel_id } => Some(cname_of(tunnel_id)),
        DnsActionView::Create { hostname, content } => Some(content),
        DnsActionView::Delete { record_id } => None,
    }
}

/// Whatever record a hostname has, after the write that was decided for it
/// the hostname is a CNAME for the tunnel; and a hostname that is one
/// already gets no write.
pub proof fn lemma_dns_converges(existing: Option<DnsRecord>, hostname: Seq<char>, tunnel_id: Seq<char>)
    ensures
        content_after(existing, dns_write_for(existing, hostname, tunnel_id)) == Some(
            cname_of(tunnel_id),
        ),
        existing is Some && points_at(existing->0, tunnel_id) ==> dns_write_for(
            existing,
            hostname,
            tunnel_id,
        ) == DnsActionView::Skip,
        existing is None ==> dns_write_for(existing, hostname, tunnel_id) == (DnsActionView::Create {
            hostname,
            content: cname_of(tunnel_id),
        }),
{
}

} // verus!
