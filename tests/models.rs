use firewall_updater::logging::{int_to_log_level, LogLevel};
use firewall_updater::models::{port_text, FirewallRules, Rule, Sources};
use firewall_updater::updater::Updater;
use std::time::Duration;

fn rule(ports: &str, addresses: &[&str]) -> Rule {
    Rule {
        protocol: String::from("tcp"),
        ports: String::from(ports),
        sources: Sources { addresses: addresses.iter().map(|a| String::from(*a)).collect() },
    }
}

#[test]
fn port_is_written_in_decimal() {
    assert_eq!(port_text(0), "0");
    assert_eq!(port_text(7), "7");
    assert_eq!(port_text(22), "22");
    assert_eq!(port_text(8080), "8080");
    assert_eq!(port_text(65535), "65535");
    assert_eq!(port_text(usize::MAX), usize::MAX.to_string());
}

#[test]
fn new_allows_one_address() {
    let doc = FirewallRules::new(String::from("5.6.7.8"), 22);
    assert_eq!(doc.inbound_rules.len(), 1);
    assert_eq!(doc.inbound_rules[0].protocol, "tcp");
    assert_eq!(doc.inbound_rules[0].ports, "22");
    assert_eq!(doc.inbound_rules[0].sources.addresses, vec!["5.6.7.8"]);
}

#[test]
fn from_addresses_keeps_order() {
    let doc = FirewallRules::from_addresses(vec![String::from("b"), String::from("a")], 443);
    assert_eq!(doc.inbound_rules.len(), 1);
    assert_eq!(doc.inbound_rules[0].ports, "443");
    assert_eq!(doc.inbound_rules[0].sources.addresses, vec!["b", "a"]);
}

#[test]
fn list_matches_port_exactly() {
    let doc = FirewallRules {
        inbound_rules: vec![
            rule("22", &["1.1.1.1", "2.2.2.2"]),
            rule("80", &["3.3.3.3"]),
            rule("20-30", &["4.4.4.4"]),
            rule("22", &["5.5.5.5"]),
            rule("220", &["6.6.6.6"]),
        ],
    };
    assert_eq!(doc.list_of_addresses(22), vec!["1.1.1.1", "2.2.2.2", "5.5.5.5"]);
    assert_eq!(doc.list_of_addresses(80), vec!["3.3.3.3"]);
    assert!(doc.list_of_addresses(25).is_empty());
    assert!(FirewallRules { inbound_rules: vec![] }.list_of_addresses(22).is_empty());
}

#[test]
fn verbosity_maps_to_levels() {
    assert_eq!(int_to_log_level(0), LogLevel::Error);
    assert_eq!(int_to_log_level(1), LogLevel::Info);
    assert_eq!(int_to_log_level(2), LogLevel::Debug);
    assert_eq!(int_to_log_level(3), LogLevel::Trace);
    assert_eq!(int_to_log_level(9), LogLevel::Trace);
}

#[test]
fn updater_builds_endpoints() {
    let u = Updater::new(String::from("abc"), String::from("tok"), Duration::from_secs(1800), 22, true);
    assert_eq!(u.get_ip, "https://status-api.dokku-ray.app/ip?format=text");
    assert_eq!(u.firewall_endpoint, "https://api.digitalocean.com/v2/firewalls/abc");
    assert_eq!(u.rules_endpoint(), "https://api.digitalocean.com/v2/firewalls/abc/rules");
    assert_eq!(u.authorization(), "Bearer tok");
    assert_eq!(u.freq, Duration::from_secs(1800));
    assert_eq!(u.port, 22);
    assert!(u.once);
    let r = u.reconciler();
    assert_eq!(r.port, 22);
    assert!(r.once);
    assert!(r.last_applied.is_none());
}
