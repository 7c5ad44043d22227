use cloudflare_tunnels_operator::cloudflare::client::{DnsContent, DnsRecord};
use cloudflare_tunnels_operator::cloudflare::{TunnelConfig, TunnelIngress};
use cloudflare_tunnels_operator::controller::ingress::{
    action_after, anchored_pattern, closing_effects, cname_target, find_named_port, plan_dns,
    plan_dns_cleanup, reconcile, service_url, DnsAction, Effect, HTTPIngressPath, Ingress,
    IngressRule, IngressServiceBackend, Pass, ServiceBackendPort, ServicePort, WorkloadPatch,
};
use cloudflare_tunnels_operator::controller::{error_policy, resync, Action, Event};

fn path_to(path: Option<&str>, path_type: &str, service: &str, number: Option<i32>, name: Option<&str>) -> HTTPIngressPath {
    HTTPIngressPath {
        path: path.map(|p| p.to_string()),
        path_type: path_type.to_string(),
        service: Some(IngressServiceBackend {
            name: service.to_string(),
            port: Some(ServiceBackendPort { number, name: name.map(|n| n.to_string()) }),
        }),
    }
}

fn ingress(annotation: Option<&str>, class_name: Option<&str>, rules: Option<Vec<IngressRule>>) -> Ingress {
    Ingress {
        name: "web".to_string(),
        namespace: Some("ns".to_string()),
        class_annotation: annotation.map(|c| c.to_string()),
        class_name: class_name.map(|c| c.to_string()),
        rules,
    }
}

fn catch_all() -> TunnelIngress {
    TunnelIngress { hostname: None, path: None, service: "http_status:404".to_string(), origin_request: None }
}

fn matches(pattern: &str, text: &str) -> bool {
    regex::Regex::new(pattern).unwrap().is_match(text)
}

#[test]
fn exact_path_matches_itself_and_a_trailing_slash() {
    let pattern = anchored_pattern("/foo", "Exact");
    assert_eq!(pattern, "^/foo\\/?$");
    assert!(matches(&pattern, "/foo"));
    assert!(matches(&pattern, "/foo/"));
    assert!(!matches(&pattern, "/foobar"));
}

#[test]
fn prefix_path_matches_what_starts_with_it() {
    let pattern = anchored_pattern("/foo", "Prefix");
    assert_eq!(pattern, "^/foo");
    assert!(matches(&pattern, "/foo"));
    assert!(matches(&pattern, "/foobar"));
    assert!(matches(&pattern, "/foo/bar"));
    assert!(!matches(&pattern, "/bar/foo"));
}

#[test]
fn path_is_taken_literally() {
    assert_eq!(anchored_pattern("/a.b", "Prefix"), "^/a\\.b");
    assert_eq!(anchored_pattern("/a+b(c)", "Exact"), "^/a\\+b\\(c\\)\\/?$");
    assert_eq!(anchored_pattern("/x-y_z~", "ImplementationSpecific"), "^/x\\-y_z\\~");
    assert_eq!(anchored_pattern("", "Exact"), "^\\/?$");
    let pattern = anchored_pattern("/a.b", "Exact");
    assert!(matches(&pattern, "/a.b"));
    assert!(!matches(&pattern, "/aXb"));
}

#[test]
fn service_url_names_service_namespace_and_port() {
    assert_eq!(service_url("svc-a", "ns", 80), "http://svc-a.ns.svc:80");
    assert_eq!(service_url("svc-a", "default", 8080), "http://svc-a.default.svc:8080");
    assert_eq!(service_url("s", "n", 0), "http://s.n.svc:0");
    assert_eq!(service_url("s", "n", 7), "http://s.n.svc:7");
    assert_eq!(service_url("s", "n", 10), "http://s.n.svc:10");
    assert_eq!(service_url("s", "n", -1), "http://s.n.svc:-1");
    assert_eq!(service_url("s", "n", i32::MAX), "http://s.n.svc:2147483647");
    assert_eq!(service_url("s", "n", i32::MIN), "http://s.n.svc:-2147483648");
}

#[test]
fn named_port_is_the_first_of_that_name() {
    let ports = vec![
        ServicePort { name: None, port: 1 },
        ServicePort { name: Some("web".to_string()), port: 8080 },
        ServicePort { name: Some("web".to_string()), port: 9090 },
        ServicePort { name: Some("admin".to_string()), port: 9000 },
    ];
    assert_eq!(find_named_port(&ports, "web"), Some(8080));
    assert_eq!(find_named_port(&ports, "admin"), Some(9000));
    assert_eq!(find_named_port(&ports, "we"), None);
    assert_eq!(find_named_port(&vec![], "web"), None);
}

#[test]
fn port_is_the_number_or_looked_up_by_name() {
    let ports = Some(vec![ServicePort { name: Some("web".to_string()), port: 8080 }]);
    let by_number = path_to(Some("/"), "Prefix", "svc-a", Some(80), Some("web"));
    assert_eq!(by_number.service_to_look_up(), None);
    assert_eq!(by_number.resolve_port(&None), Some(80));
    assert_eq!(by_number.resolve_port(&ports), Some(80));
    let by_name = path_to(Some("/"), "Prefix", "svc-a", None, Some("web"));
    assert_eq!(by_name.service_to_look_up(), Some("svc-a".to_string()));
    assert_eq!(by_name.resolve_port(&ports), Some(8080));
    assert_eq!(by_name.resolve_port(&None), None);
    assert_eq!(by_name.resolve_port(&Some(vec![])), None);
    let neither = path_to(Some("/"), "Prefix", "svc-a", None, None);
    assert_eq!(neither.service_to_look_up(), None);
    assert_eq!(neither.resolve_port(&ports), None);
    let no_port = HTTPIngressPath {
        path: None,
        path_type: "Prefix".to_string(),
        service: Some(IngressServiceBackend { name: "svc-a".to_string(), port: None }),
    };
    assert_eq!(no_port.resolve_port(&ports), None);
    let no_backend = HTTPIngressPath { path: None, path_type: "Prefix".to_string(), service: None };
    assert_eq!(no_backend.resolve_port(&ports), None);
    assert_eq!(no_backend.route(&None, "ns", &ports), None);
}

#[test]
fn route_copies_host_and_builds_pattern_and_service() {
    let path = path_to(Some("/v1"), "Exact", "svc-a", Some(80), None);
    let rule = path.route(&Some("api.example.com".to_string()), "ns", &None).unwrap();
    assert_eq!(
        rule,
        TunnelIngress {
            hostname: Some("api.example.com".to_string()),
            path: Some("^/v1\\/?$".to_string()),
            service: "http://svc-a.ns.svc:80".to_string(),
            origin_request: None,
        }
    );
    let any = path_to(None, "Prefix", "svc-b", Some(443), None).route(&None, "default", &None).unwrap();
    assert_eq!(any.hostname, None);
    assert_eq!(any.path, None);
    assert_eq!(any.service, "http://svc-b.default.svc:443");
}

#[test]
fn ingress_against_empty_config_yields_route_and_record() {
    let object = ingress(
        None,
        None,
        Some(vec![IngressRule {
            host: Some("api.example.com".to_string()),
            paths: vec![path_to(Some("/v1"), "Exact", "svc-a", Some(80), None)],
        }]),
    );
    assert_eq!(reconcile(&object, &None, Event::Apply), Pass::Apply);
    let mut config = TunnelConfig {
        tunnel: "tunnel-1".to_string(),
        origin_request: None,
        credentials_file: "/credentials/credentials.json".to_string(),
        ingress: vec![],
    };
    let namespace = object.namespace_or_default();
    assert_eq!(namespace, "ns");
    let rule = &object.rules.as_ref().unwrap()[0];
    rule.apply(&mut config, &namespace, &vec![None]);
    assert_eq!(
        config.ingress,
        vec![
            TunnelIngress {
                hostname: Some("api.example.com".to_string()),
                path: Some("^/v1\\/?$".to_string()),
                service: "http://svc-a.ns.svc:80".to_string(),
                origin_request: None,
            },
            catch_all(),
        ]
    );
    let hostname = rule.dns_hostname();
    assert_eq!(hostname, "api.example.com");
    assert_eq!(
        plan_dns(&None, &hostname, &config.tunnel),
        DnsAction::Create {
            hostname: "api.example.com".to_string(),
            content: "tunnel-1.cfargotunnel.com".to_string(),
        }
    );
}

#[test]
fn paths_are_routed_in_the_order_declared() {
    let rule = IngressRule {
        host: None,
        paths: vec![
            path_to(Some("/a"), "Prefix", "svc-a", Some(80), None),
            HTTPIngressPath { path: Some("/x".to_string()), path_type: "Prefix".to_string(), service: None },
            path_to(Some("/b"), "Prefix", "svc-b", None, Some("web")),
            path_to(Some("/c"), "Prefix", "svc-c", None, Some("web")),
            path_to(Some("/a2"), "Exact", "svc-a", Some(80), None),
        ],
    };
    let mut config = TunnelConfig::seed("t".to_string());
    let lookups = vec![
        None,
        None,
        Some(vec![ServicePort { name: Some("web".to_string()), port: 8080 }]),
        Some(vec![ServicePort { name: Some("other".to_string()), port: 1 }]),
        None,
    ];
    rule.apply(&mut config, "ns", &lookups);
    let services: Vec<&str> = config.ingress.iter().map(|r| r.service.as_str()).collect();
    assert_eq!(services, vec!["http://svc-a.ns.svc:80", "http://svc-b.ns.svc:8080", "http_status:404"]);
    assert_eq!(config.ingress[0].path, Some("^/a2\\/?$".to_string()));
    assert_eq!(rule.dns_hostname(), "@");
}

#[test]
fn cleanup_takes_the_services_of_the_paths_out() {
    let rule = IngressRule {
        host: Some("a.example.com".to_string()),
        paths: vec![
            path_to(Some("/a"), "Prefix", "svc-a", Some(80), None),
            HTTPIngressPath { path: None, path_type: "Prefix".to_string(), service: None },
        ],
    };
    let other = IngressRule {
        host: Some("b.example.com".to_string()),
        paths: vec![path_to(Some("/b"), "Prefix", "svc-b", Some(80), None)],
    };
    let mut config = TunnelConfig::seed("t".to_string());
    rule.apply(&mut config, "ns", &vec![None, None]);
    other.apply(&mut config, "ns", &vec![None]);
    assert_eq!(config.ingress.len(), 3);
    rule.cleanup(&mut config);
    let services: Vec<&str> = config.ingress.iter().map(|r| r.service.as_str()).collect();
    assert_eq!(services, vec!["http://svc-b.ns.svc:80", "http_status:404"]);
}

#[test]
fn object_of_another_class_is_left_alone() {
    let rules = Some(vec![]);
    let mine = Some("cloudflare".to_string());
    assert_eq!(reconcile(&ingress(Some("nginx"), None, rules.clone()), &mine, Event::Apply), Pass::Ignore);
    assert_eq!(reconcile(&ingress(None, Some("nginx"), rules.clone()), &mine, Event::Cleanup), Pass::Ignore);
    assert_eq!(reconcile(&ingress(None, None, rules.clone()), &mine, Event::Apply), Pass::Ignore);
    assert_eq!(reconcile(&ingress(Some("cloudflare"), None, rules.clone()), &None, Event::Apply), Pass::Ignore);
    assert_eq!(reconcile(&ingress(Some("nginx"), Some("cloudflare"), rules.clone()), &mine, Event::Apply), Pass::Ignore);
    assert_eq!(reconcile(&ingress(Some("cloudflare"), Some("nginx"), rules.clone()), &mine, Event::Apply), Pass::Apply);
    assert_eq!(reconcile(&ingress(None, Some("cloudflare"), rules.clone()), &mine, Event::Cleanup), Pass::Cleanup);
    assert_eq!(reconcile(&ingress(None, None, rules), &None, Event::Apply), Pass::Apply);
    assert_eq!(reconcile(&ingress(None, None, None), &None, Event::Apply), Pass::Nothing);
    assert_eq!(reconcile(&ingress(None, None, None), &None, Event::Cleanup), Pass::Nothing);
    assert!(ingress(None, Some("cloudflare"), None).matches_class(&mine));
    assert!(!ingress(None, Some("cloudflar"), None).matches_class(&mine));
}

#[test]
fn namespace_defaults() {
    let mut object = ingress(None, None, None);
    object.namespace = None;
    assert_eq!(object.namespace_or_default(), "default");
}

#[test]
fn next_pass_after_success_and_failure() {
    assert_eq!(action_after(Pass::Ignore), Action::AwaitChange);
    assert_eq!(action_after(Pass::Nothing), Action::Requeue(3600));
    assert_eq!(action_after(Pass::Apply), Action::Requeue(3600));
    assert_eq!(action_after(Pass::Cleanup), Action::Requeue(3600));
    assert_eq!(error_policy(), Action::Requeue(15));
    assert_eq!(resync(), Action::Requeue(3600));
}

#[test]
fn dns_is_created_updated_or_left() {
    assert_eq!(cname_target("abc"), "abc.cfargotunnel.com");
    let record = |content: DnsContent| {
        Some(DnsRecord { id: "rec-1".to_string(), name: "a.example.com".to_string(), content })
    };
    assert_eq!(
        plan_dns(&None, "a.example.com", "abc"),
        DnsAction::Create { hostname: "a.example.com".to_string(), content: "abc.cfargotunnel.com".to_string() }
    );
    let update = DnsAction::Update {
        record_id: "rec-1".to_string(),
        hostname: "a.example.com".to_string(),
        tunnel_id: "abc".to_string(),
    };
    assert_eq!(plan_dns(&record(DnsContent::Cname("old.cfargotunnel.com".to_string())), "a.example.com", "abc"), update);
    assert_eq!(plan_dns(&record(DnsContent::Cname("abc".to_string())), "a.example.com", "abc"), update);
    assert_eq!(plan_dns(&record(DnsContent::Other), "a.example.com", "abc"), update);
    assert_eq!(
        plan_dns(&record(DnsContent::Cname("abc.cfargotunnel.com".to_string())), "a.example.com", "abc"),
        DnsAction::Skip
    );
}

#[test]
fn dns_cleanup_deletes_what_is_there() {
    let record = Some(DnsRecord {
        id: "rec-1".to_string(),
        name: "a.example.com".to_string(),
        content: DnsContent::Other,
    });
    assert_eq!(plan_dns_cleanup(&record), DnsAction::Delete { record_id: "rec-1".to_string() });
    assert_eq!(plan_dns_cleanup(&None), DnsAction::Skip);
}

#[test]
fn status_is_written_last_and_only_after_an_apply() {
    let store = Effect::PersistConfig { document: "hello".to_string() };
    let roll_out = Effect::PatchWorkload {
        patch: WorkloadPatch {
            name: "cloudflared".to_string(),
            annotation: "cloudflare-tunnels-operator.io/config-hash".to_string(),
            config_hash: "2cf24dba5fb0a30e26e83b2ac5b9e29e1b161e5c1fa7425e73043362938b9824".to_string(),
        },
    };
    let report = Effect::ReportLoadBalancer { hostname: "id-1.cfargotunnel.com".to_string() };
    assert_eq!(closing_effects(Pass::Apply, "id-1", "hello"), vec![store.clone(), roll_out.clone(), report]);
    assert_eq!(closing_effects(Pass::Cleanup, "id-1", "hello"), vec![store, roll_out]);
    assert_eq!(closing_effects(Pass::Nothing, "id-1", "hello"), vec![]);
    assert_eq!(closing_effects(Pass::Ignore, "id-1", "hello"), vec![]);
}
