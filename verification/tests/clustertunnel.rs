use cloudflare_tunnels_operator::cloudflare::client::Credentials;
use cloudflare_tunnels_operator::cloudflare::{TunnelConfig, TunnelCredentials, TunnelIngress};
use cloudflare_tunnels_operator::controller::clustertunnel::{
    bind_tunnel, reconcile, CleanupStep, CloudflareCredentials, CloudflareSecretRef,
    ClusterTunnelSpec, OwnedSecret, SecretRef, Step, TunnelStep,
};
use cloudflare_tunnels_operator::controller::ingress::{patch_deployment, shared_config};
use cloudflare_tunnels_operator::controller::utils::get_credentials;
use cloudflare_tunnels_operator::controller::utils::helper::{stored_value, Secret, SecretEntry};
use cloudflare_tunnels_operator::controller::{
    Action, Event, ANNOTATION_CONFIG_HASH, OPERATOR_MANAGER,
};
use cloudflare_tunnels_operator::error::ErrorKind;
use cloudflare_tunnels_operator::{ClusterTunnel, Error};

const HELLO_SHA256: &str = "2cf24dba5fb0a30e26e83b2ac5b9e29e1b161e5c1fa7425e73043362938b9824";

fn secret_ref(name: &str, key: &str) -> SecretRef {
    SecretRef { name: name.to_string(), key: key.to_string() }
}

fn token_creds() -> CloudflareCredentials {
    CloudflareCredentials {
        account_id: "acct".to_string(),
        zone_id: "zone".to_string(),
        email: None,
        secret_ref: CloudflareSecretRef::ApiToken(secret_ref("cf", "token")),
    }
}

fn key_creds(email: Option<&str>) -> CloudflareCredentials {
    CloudflareCredentials {
        account_id: "acct".to_string(),
        zone_id: "zone".to_string(),
        email: email.map(|e| e.to_string()),
        secret_ref: CloudflareSecretRef::ApiKey(secret_ref("cf", "key")),
    }
}

fn tunnel(name: Option<&str>, own_secret: Option<SecretRef>) -> ClusterTunnel {
    ClusterTunnel {
        name: "resource".to_string(),
        spec: ClusterTunnelSpec {
            name: name.map(|n| n.to_string()),
            tunnel_secret_ref: own_secret,
            cloudflare: token_creds(),
        },
    }
}

fn secret(entries: Vec<(&str, &[u8])>) -> Option<Secret> {
    Some(Secret {
        data: Some(
            entries
                .into_iter()
                .map(|(key, value)| SecretEntry { key: key.to_string(), value: value.to_vec() })
                .collect(),
        ),
    })
}

#[test]
fn secret_ref_is_the_payload_of_either_kind() {
    assert_eq!(CloudflareSecretRef::ApiKey(secret_ref("a", "k")).secret_ref(), &secret_ref("a", "k"));
    assert_eq!(CloudflareSecretRef::ApiToken(secret_ref("b", "t")).secret_ref(), &secret_ref("b", "t"));
}

#[test]
fn token_resolves_to_the_text_under_the_key() {
    let stored = secret(vec![("other", b"x"), ("token", b"s3cret"), ("token", b"later")]);
    assert_eq!(
        get_credentials(&token_creds(), &stored),
        Ok(Credentials::UserAuthToken { token: "s3cret".to_string() })
    );
    assert_eq!(
        tunnel(None, None).get_credentials(&stored),
        Ok(Credentials::UserAuthToken { token: "s3cret".to_string() })
    );
    let unicode = secret(vec![("token", "gr\u{fc}n".as_bytes())]);
    assert_eq!(
        get_credentials(&token_creds(), &unicode),
        Ok(Credentials::UserAuthToken { token: "gr\u{fc}n".to_string() })
    );
}

#[test]
fn api_key_needs_an_email() {
    let stored = secret(vec![("key", b"k3y")]);
    assert_eq!(
        get_credentials(&key_creds(Some("me@example.com")), &stored),
        Ok(Credentials::UserAuthKey { email: "me@example.com".to_string(), key: "k3y".to_string() })
    );
    assert_eq!(get_credentials(&key_creds(None), &stored), Err(Error::MissingEmail));
}

#[test]
fn resolver_names_what_is_missing() {
    assert_eq!(get_credentials(&token_creds(), &None), Err(Error::MissingSecret));
    assert_eq!(get_credentials(&token_creds(), &Some(Secret { data: None })), Err(Error::MissingSecretData));
    assert_eq!(get_credentials(&token_creds(), &secret(vec![("key", b"x")])), Err(Error::MissingSecretKey));
    assert_eq!(get_credentials(&token_creds(), &secret(vec![])), Err(Error::MissingSecretKey));
    assert_eq!(get_credentials(&token_creds(), &secret(vec![("token", &[0xff, 0xfe])])), Err(Error::InvalidText));
    assert_eq!(get_credentials(&key_creds(None), &secret(vec![("key", &[0xc3])])), Err(Error::InvalidText));
    assert_eq!(get_credentials(&key_creds(None), &None), Err(Error::MissingSecret));
}

#[test]
fn errors_have_a_kind_and_a_message() {
    assert_eq!(Error::NoClusterTunnel.kind(), ErrorKind::Logic);
    assert_eq!(Error::MissingSecret.kind(), ErrorKind::Validation);
    assert_eq!(Error::MissingEmail.kind(), ErrorKind::Validation);
    assert_eq!(Error::InvalidText.kind(), ErrorKind::Validation);
    assert_eq!(Error::MissingEmail.message(), "api key requires email");
    assert_eq!(Error::MissingSecretData.message(), "no data");
    assert_eq!(Error::MissingCredentials.message(), "no credentials");
    assert_eq!(Error::NoClusterTunnel.message(), "no cluster tunnel available");
    assert_eq!(Error::InvalidCredentials.message(), "failed to deserialize credentials");
    assert_eq!(Error::MissingConfig.message(), "no data");
    assert_eq!(Error::MissingSecretKey.message(), "key not found or invalid");
    assert_eq!(Error::InvalidText.message(), "value not a string");
    assert_eq!(Error::MissingSecret.message(), "secret not found");
}

#[test]
fn tunnel_name_defaults_to_the_resource() {
    assert_eq!(tunnel(None, None).tunnel_name(), "resource");
    assert_eq!(tunnel(Some("edge"), None).tunnel_name(), "edge");
    assert_eq!(tunnel(Some("edge"), None).config_name(), "cloudflared-edge-config");
    assert_eq!(
        tunnel(Some("edge"), None).credentials_secret(),
        secret_ref("cloudflared-edge-credentials", "credentials.json")
    );
    assert_eq!(
        tunnel(None, None).credentials_secret(),
        secret_ref("cloudflared-resource-credentials", "credentials.json")
    );
    assert_eq!(tunnel(Some("edge"), Some(secret_ref("mine", "creds"))).credentials_secret(), secret_ref("mine", "creds"));
}

#[test]
fn existing_tunnel_is_never_created_again() {
    assert_eq!(
        tunnel(Some("edge"), None).reconcile(&Some("id-1".to_string())),
        TunnelStep::LoadCredentials {
            tunnel_id: "id-1".to_string(),
            secret_name: "cloudflared-edge-credentials".to_string(),
            secret_key: "credentials.json".to_string(),
        }
    );
    assert_eq!(
        tunnel(Some("edge"), Some(secret_ref("mine", "creds"))).reconcile(&Some("id-1".to_string())),
        TunnelStep::LoadCredentials {
            tunnel_id: "id-1".to_string(),
            secret_name: "mine".to_string(),
            secret_key: "creds".to_string(),
        }
    );
}

#[test]
fn missing_tunnel_is_created_once_under_its_name() {
    assert_eq!(tunnel(Some("edge"), None).reconcile(&None), TunnelStep::CreateTunnel { name: "edge".to_string() });
    assert_eq!(tunnel(None, None).reconcile(&None), TunnelStep::CreateTunnel { name: "resource".to_string() });
}

#[test]
fn credentials_of_an_existing_tunnel_must_be_in_the_cluster() {
    let subject = tunnel(Some("edge"), None);
    let stored = secret(vec![("credentials.json", b"{}")]);
    assert_eq!(subject.stored_credentials(&stored), Ok(&b"{}".to_vec()));
    assert_eq!(subject.stored_credentials(&None), Err(Error::MissingSecret));
    assert_eq!(subject.stored_credentials(&Some(Secret { data: None })), Err(Error::MissingSecretData));
    assert_eq!(subject.stored_credentials(&secret(vec![("other", b"{}")])), Err(Error::MissingCredentials));
    assert_eq!(stored_value(&stored, "credentials.json", Error::MissingSecretKey), Ok(&b"{}".to_vec()));
    assert_eq!(stored_value(&stored, "nope", Error::MissingSecretKey), Err(Error::MissingSecretKey));
}

#[test]
fn cleanup_of_an_absent_tunnel_is_done() {
    assert_eq!(tunnel(None, None).cleanup(&None), CleanupStep::Done);
    assert_eq!(
        tunnel(None, None).cleanup(&Some("id-1".to_string())),
        CleanupStep::DeleteTunnel { tunnel_id: "id-1".to_string() }
    );
    assert_eq!(tunnel(None, None).next_action(), Action::Requeue(3600));
}

#[test]
fn operator_writes_only_its_own_secret() {
    assert_eq!(
        tunnel(Some("edge"), None).owned_secret("{\"a\":1}".to_string()),
        Some(OwnedSecret {
            name: "cloudflared-edge-credentials".to_string(),
            key: "credentials.json".to_string(),
            value: "{\"a\":1}".to_string(),
        })
    );
    assert_eq!(tunnel(Some("edge"), Some(secret_ref("mine", "creds"))).owned_secret("{}".to_string()), None);
}

#[test]
fn existing_config_is_never_overwritten() {
    let credentials = TunnelCredentials {
        account_tag: "acct".to_string(),
        tunnel_secret: "c2VjcmV0".to_string(),
        tunnel_id: "id-1".to_string(),
    };
    let seeded = ClusterTunnel::config_or_seed(None, &credentials);
    assert_eq!(seeded, TunnelConfig::seed("id-1".to_string()));
    assert_eq!(seeded.ingress, vec![TunnelIngress::catch_all()]);
    let mut existing = TunnelConfig::seed("older".to_string());
    existing.upsert_rule(TunnelIngress {
        hostname: None,
        path: None,
        service: "http://a.ns.svc:80".to_string(),
        origin_request: None,
    });
    assert_eq!(ClusterTunnel::config_or_seed(Some(existing.clone()), &credentials), existing);
}

#[test]
fn workload_mounts_config_and_credentials_and_carries_the_hash() {
    let config = TunnelConfig::seed("id-1".to_string());
    let workload = tunnel(Some("edge"), None).deploy_cloudflared(&config, "hello");
    assert_eq!(workload.name, "cloudflared");
    assert_eq!(workload.part_of, "cloudflare-tunnels-operator");
    assert_eq!(workload.app_name, "cloudflared");
    assert_eq!(workload.config_hash, HELLO_SHA256);
    assert_eq!(workload.config_map, "cloudflared-edge-config");
    assert_eq!(workload.config_key, "config.yaml");
    assert_eq!(workload.config_mount_path, "/config");
    assert_eq!(workload.credentials_mount_path, "/credentials/credentials.json");
    assert_eq!(workload.credentials_mount_path, config.credentials_file);
    assert_eq!(workload.secret_name, "cloudflared-edge-credentials");
    assert_eq!(workload.secret_key, "credentials.json");
    assert_eq!(workload.image, "cloudflare/cloudflared:2024.8.2");
    assert_eq!(
        workload.args,
        vec!["tunnel", "--no-autoupdate", "--metrics", "0.0.0.0:2000", "--config", "/config/config.yaml", "run", "id-1"]
    );
    assert_eq!(workload.probe_path, "/ready");
    assert_eq!(workload.probe_port, 2000);
    assert_eq!(workload.failure_threshold, 1);
    assert_eq!(workload.initial_delay_seconds, 10);
    assert_eq!(workload.period_seconds, 10);
    let foreign = tunnel(Some("edge"), Some(secret_ref("mine", "creds"))).deploy_cloudflared(&config, "");
    assert_eq!(foreign.secret_name, "mine");
    assert_eq!(foreign.secret_key, "creds");
    assert_eq!(foreign.config_hash, "e3b0c44298fc1c149afbf4c8996fb92427ae41e4649b934ca495991b7852b855");
}

#[test]
fn patch_carries_the_hash_of_the_document() {
    let patch = patch_deployment("hello");
    assert_eq!(patch.name, "cloudflared");
    assert_eq!(patch.annotation, ANNOTATION_CONFIG_HASH);
    assert_eq!(patch.annotation, "cloudflare-tunnels-operator.io/config-hash");
    assert_eq!(OPERATOR_MANAGER, "cloudflare-tunnels-operator");
    assert_eq!(patch.config_hash, HELLO_SHA256);
    assert_ne!(patch_deployment("hello ").config_hash, HELLO_SHA256);
}

#[test]
fn ingress_binds_to_the_first_tunnel() {
    assert_eq!(bind_tunnel(&vec![]), Err(Error::NoClusterTunnel));
    let tunnels = vec![tunnel(Some("first"), None), tunnel(Some("second"), None)];
    assert_eq!(bind_tunnel(&tunnels).map(|t| t.tunnel_name()), Ok("first".to_string()));
}

#[test]
fn unreadable_credentials_are_an_error() {
    let credentials = TunnelCredentials {
        account_tag: "acct".to_string(),
        tunnel_secret: "c2VjcmV0".to_string(),
        tunnel_id: "id-1".to_string(),
    };
    assert_eq!(ClusterTunnel::loaded_credentials(Some(credentials.clone())), Ok(credentials));
    assert_eq!(ClusterTunnel::loaded_credentials(None), Err(Error::InvalidCredentials));
}

#[test]
fn missing_routing_document_is_an_error() {
    let config = TunnelConfig::seed("id-1".to_string());
    assert_eq!(shared_config(Some(config.clone())), Ok(config));
    assert_eq!(shared_config(None), Err(Error::MissingConfig));
}

#[test]
fn event_decides_between_reconcile_and_cleanup() {
    let subject = tunnel(Some("edge"), None);
    assert_eq!(
        reconcile(&subject, Event::Apply, &None),
        Step::Apply(TunnelStep::CreateTunnel { name: "edge".to_string() })
    );
    assert_eq!(
        reconcile(&subject, Event::Apply, &Some("id-1".to_string())),
        Step::Apply(TunnelStep::LoadCredentials {
            tunnel_id: "id-1".to_string(),
            secret_name: "cloudflared-edge-credentials".to_string(),
            secret_key: "credentials.json".to_string(),
        })
    );
    assert_eq!(reconcile(&subject, Event::Cleanup, &None), Step::Cleanup(CleanupStep::Done));
    assert_eq!(
        reconcile(&subject, Event::Cleanup, &Some("id-1".to_string())),
        Step::Cleanup(CleanupStep::DeleteTunnel { tunnel_id: "id-1".to_string() })
    );
}
