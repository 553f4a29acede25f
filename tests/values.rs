use fuoco::provider::{resolve_default_instance_type, resolve_random_region, Provider};
use fuoco::rules::{parse_port, resolve_default_inbound_rule, rule_json, rules_json, InboundRule, RuleError};
use fuoco::text::{decimal_string, hex_string, join_path};
use fuoco::vars::VarMap;
use fuoco::workspace::{workspace_dir, workspace_identity};

const EMPTY_SHA256: &str = "e3b0c44298fc1c149afbf4c8996fb92427ae41e4649b934ca495991b7852b855";

#[test]
fn default_instance_types() {
    assert_eq!(resolve_default_instance_type(&Provider::AWS), "t3.micro");
    assert_eq!(resolve_default_instance_type(&Provider::GCP), "f1-micro");
    assert_eq!(resolve_default_instance_type(&Provider::Hetzner), "cx11");
}

#[test]
fn random_region_belongs_to_its_provider() {
    for provider in [Provider::AWS, Provider::GCP, Provider::Hetzner] {
        let own = provider.regions();
        for _ in 0..50 {
            let r = resolve_random_region(&provider);
            assert!(!r.is_empty());
            assert!(own.contains(&r.as_str()));
            for other in [Provider::AWS, Provider::GCP, Provider::Hetzner] {
                if other != provider {
                    assert!(!other.regions().contains(&r.as_str()));
                }
            }
        }
    }
}

#[test]
fn region_lists_have_fixed_sizes() {
    assert_eq!(Provider::AWS.regions().len(), 17);
    assert_eq!(Provider::GCP.regions().len(), 31);
    assert_eq!(Provider::Hetzner.regions(), vec!["fsn1", "nbg1", "hel1", "ash", "hil"]);
    assert_eq!(Provider::Hetzner.name(), "hetzner");
}

#[test]
fn rule_parses() {
    let r = InboundRule::from_str("tcp:22").unwrap();
    assert_eq!(r.protocol, "tcp");
    assert_eq!(r.port_number, 22);
    let r = InboundRule::from_str("udp:+53").unwrap();
    assert_eq!(r.protocol, "udp");
    assert_eq!(r.port_number, 53);
    let r = InboundRule::from_str(":65535").unwrap();
    assert_eq!(r.protocol, "");
    assert_eq!(r.port_number, 65535);
}

#[test]
fn rule_format_errors() {
    assert_eq!(InboundRule::from_str("tcp").unwrap_err(), RuleError::Format);
    assert_eq!(InboundRule::from_str("tcp:22:1").unwrap_err(), RuleError::Format);
    assert_eq!(InboundRule::from_str("").unwrap_err(), RuleError::Format);
    assert_eq!(
        RuleError::Format.message(),
        "Inbound rule must be in format protocol:port"
    );
}

#[test]
fn rule_port_errors() {
    assert_eq!(InboundRule::from_str("tcp:").unwrap_err(), RuleError::Port);
    assert_eq!(InboundRule::from_str("tcp:abc").unwrap_err(), RuleError::Port);
    assert_eq!(InboundRule::from_str("tcp:65536").unwrap_err(), RuleError::Port);
    assert_eq!(InboundRule::from_str("tcp:-1").unwrap_err(), RuleError::Port);
    assert_eq!(InboundRule::from_str("tcp:+").unwrap_err(), RuleError::Port);
    assert_eq!(RuleError::Port.message(), "Invalid port number");
}

#[test]
fn port_text_matches_std() {
    for s in ["0", "+0", "007", "65535", "65536", "99999999999", "", "+", "1a", " 1", "-0"] {
        assert_eq!(parse_port(s), s.parse::<u16>().ok(), "{}", s);
    }
}

#[test]
fn default_rule_is_ssh() {
    let d = resolve_default_inbound_rule();
    assert_eq!(d.len(), 1);
    assert_eq!(d[0].protocol, "tcp");
    assert_eq!(d[0].port_number, 22);
}

#[test]
fn rules_encode_as_json() {
    assert_eq!(
        rules_json(&resolve_default_inbound_rule()),
        "[{\"protocol\":\"tcp\",\"port_number\":22}]"
    );
    let two = vec![
        InboundRule { protocol: "tcp".to_string(), port_number: 80 },
        InboundRule { protocol: "u\"dp".to_string(), port_number: 0 },
    ];
    assert_eq!(
        rules_json(&two),
        "[{\"protocol\":\"tcp\",\"port_number\":80},{\"protocol\":\"u\\\"dp\",\"port_number\":0}]"
    );
    assert_eq!(rules_json(&Vec::new()), "[]");
    assert_eq!(rule_json("\"x\"", 443), "{\"protocol\":\"x\",\"port_number\":443}");
}

#[test]
fn numbers_as_text() {
    assert_eq!(decimal_string(0), "0");
    assert_eq!(decimal_string(22), "22");
    assert_eq!(decimal_string(65535), "65535");
    assert_eq!(hex_string(&vec![10, 20, 30]), "0a141e");
    assert_eq!(hex_string(&vec![0, 255]), "00ff");
    assert_eq!(hex_string(&Vec::new()), "");
}

#[test]
fn paths_join() {
    assert_eq!(join_path("/tmp", "atar"), "/tmp/atar");
    assert_eq!(join_path("/tmp/", "atar"), "/tmp/atar");
    assert_eq!(join_path("", "atar"), "atar");
}

#[test]
fn workspace_identity_is_path_digest() {
    assert_eq!(workspace_identity(""), EMPTY_SHA256);
    assert_eq!(
        workspace_identity("abc"),
        "ba7816bf8f01cfea414140de5dae2223b00361a396177a9cb410ff61f20015ad"
    );
}

#[test]
fn workspace_identity_same_path_same_id() {
    let a = workspace_identity("/srv/project/templates/aws");
    let b = workspace_identity("/srv/project/templates/aws");
    let c = workspace_identity("/srv/project/templates/gcp");
    assert_eq!(a, b);
    assert_ne!(a, c);
    assert_eq!(a.len(), 64);
}

#[test]
fn workspace_dir_under_temp_root() {
    assert_eq!(workspace_dir("/tmp", ""), format!("/tmp/atar/{}", EMPTY_SHA256));
    assert_eq!(workspace_dir("/tmp/", ""), format!("/tmp/atar/{}", EMPTY_SHA256));
}

#[test]
fn var_map_keeps_order() {
    let mut m = VarMap::new();
    assert_eq!(m.len(), 0);
    assert_eq!(m.get("region"), None);
    m.push("region".to_string(), "fsn1".to_string());
    m.push("instance_type".to_string(), "cx11".to_string());
    assert_eq!(m.len(), 2);
    assert_eq!(m.get("region").map(|s| s.as_str()), Some("fsn1"));
    assert_eq!(m.get("instance_type").map(|s| s.as_str()), Some("cx11"));
    assert_eq!(m.get("other"), None);
    let d = m.duplicate();
    assert_eq!(d.entries(), m.entries());
    assert_eq!(d.entries()[0].0, "region");
}
