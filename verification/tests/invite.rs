use sip_edge::invite::{
    balance_rejection, did_extension_offline, did_route, test_max_duration, BalanceFlags, DidRoute,
    check_anti_fraud_rules, extract_callee_from_to_header, gateway_domain_mismatch,
    request_transport, sip_user, AntiFraudRule, FraudBlock, cross_tenant_refused,
    single_leg_target, uses_forking, forks_by_flags,
};
use sip_edge::sip::{HeaderMap, Method, SipRequest, SipUri};

fn invite(headers: &[(&str, &str)]) -> SipRequest {
    let mut map = HeaderMap::new();
    for (k, v) in headers {
        map.push(k.to_string(), v.to_string());
    }
    SipRequest {
        method: Method::Invite,
        uri: "sip:2000@example.com".to_string(),
        headers: map,
        body: Vec::new(),
    }
}

fn rule(rule_type: &str, target: &str, limit: Option<i64>) -> AntiFraudRule {
    AntiFraudRule {
        enabled: true,
        rule_type: rule_type.to_string(),
        target_value: target.to_string(),
        limit_number: limit,
    }
}

#[test]
fn callee_is_the_user_of_the_to_uri() {
    let req = invite(&[("To", "<sip:13800138000@example.com>;tag=x")]);
    assert_eq!(extract_callee_from_to_header(&req), "13800138000");
    assert_eq!(extract_callee_from_to_header(&invite(&[])), "");
    assert_eq!(sip_user("<sip:example.com>"), None);
    assert_eq!(sip_user("tel:123"), None);
}

#[test]
fn transport_is_tcp_only_when_via_says_so() {
    assert_eq!(request_transport(&invite(&[("Via", "SIP/2.0/tcp h")])), "tcp");
    assert_eq!(request_transport(&invite(&[("Via", "SIP/2.0/UDP h")])), "udp");
    assert_eq!(request_transport(&invite(&[])), "udp");
}

#[test]
fn blacklist_matches_caller_or_callee_prefix() {
    let rules = vec![rule("blacklist", "1380", None)];
    assert_eq!(
        check_anti_fraud_rules(&rules, "1001", "13800138000", "192.0.2.1", 0, 0),
        Some(FraudBlock::Blacklisted)
    );
    assert_eq!(check_anti_fraud_rules(&rules, "1001", "2000", "192.0.2.1", 0, 0), None);
    let empty = vec![rule("blacklist", "", None)];
    assert_eq!(check_anti_fraud_rules(&empty, "1001", "2000", "192.0.2.1", 0, 0), None);
    let b = FraudBlock::Blacklisted;
    assert_eq!(b.status(), 403);
    assert_eq!(b.reason(), "Forbidden - Anti-Fraud Blacklist Match");
    assert_eq!(b.error_text(), "Callee number is blacklisted");
}

#[test]
fn concurrency_rules_compare_counts_with_limits() {
    let ip_rule = vec![rule("ip_concurrency", "192.0.2.1", Some(2))];
    assert_eq!(check_anti_fraud_rules(&ip_rule, "1001", "2000", "192.0.2.1", 1, 0), None);
    assert_eq!(
        check_anti_fraud_rules(&ip_rule, "1001", "2000", "192.0.2.1", 2, 0),
        Some(FraudBlock::IpConcurrencyExceeded)
    );
    let user_rule = vec![rule("user_concurrency", "1001", None)];
    assert_eq!(
        check_anti_fraud_rules(&user_rule, "1001", "2000", "192.0.2.9", 0, 0),
        Some(FraudBlock::UserConcurrencyExceeded)
    );
    let mut disabled = rule("user_concurrency", "1001", None);
    disabled.enabled = false;
    assert_eq!(check_anti_fraud_rules(&vec![disabled], "1001", "2000", "x", 9, 9), None);
    assert_eq!(FraudBlock::UserConcurrencyExceeded.status(), 503);
}

#[test]
fn gateway_domain_must_contain_the_caller_domain() {
    assert!(gateway_domain_mismatch(false, "gw.other.com", Some("example.com")));
    assert!(!gateway_domain_mismatch(false, "gw.example.com", Some("example.com")));
    assert!(!gateway_domain_mismatch(false, "gw1", Some("example.com")));
    assert!(!gateway_domain_mismatch(true, "gw.other.com", Some("example.com")));
    assert!(!gateway_domain_mismatch(false, "gw.other.com", None));
    assert!(!gateway_domain_mismatch(false, "", Some("example.com")));
}

#[test]
fn did_routes_and_offline_extensions() {
    assert_eq!(did_route("ivr"), DidRoute::Ivr);
    assert_eq!(did_route("extension_group"), DidRoute::ExtensionGroup);
    assert_eq!(did_route("extension"), DidRoute::Extension);
    assert!(did_extension_offline(true, false, Some("extension")));
    assert!(!did_extension_offline(true, true, Some("extension")));
    assert!(!did_extension_offline(false, false, Some("extension")));
    assert!(!did_extension_offline(true, false, Some("ivr")));
    assert!(!did_extension_offline(true, false, None));
}

#[test]
fn balance_check_rejections_in_order() {
    let flags = |a, r, b| BalanceFlags { account_found: a, rate_found: r, has_balance: b };
    assert_eq!(balance_rejection(None), Some("计费服务暂不可用"));
    assert_eq!(balance_rejection(Some(&flags(false, false, false))), Some("计费账户未配置"));
    assert_eq!(balance_rejection(Some(&flags(true, false, false))), Some("被叫号码未配置费率"));
    assert_eq!(balance_rejection(Some(&flags(true, true, false))), Some("余额不足"));
    assert_eq!(balance_rejection(Some(&flags(true, true, true))), None);
}

#[test]
fn test_max_duration_header_is_trimmed_and_parsed() {
    assert_eq!(test_max_duration(&invite(&[("X-Test-Max-Duration", " 30 ")])), Some(30));
    assert_eq!(test_max_duration(&invite(&[("X-Test-Max-Duration", "x")])), None);
    assert_eq!(test_max_duration(&invite(&[])), None);
}

#[test]
fn cross_tenant_compares_domains_without_port() {
    assert!(!cross_tenant_refused(None, "b.example", true));
    assert!(!cross_tenant_refused(Some("a.example:5060"), "a.example", true));
    assert!(cross_tenant_refused(Some("a.example"), "b.example:5080", true));
    assert!(!cross_tenant_refused(Some("a.example"), "b.example", false));
}

#[test]
fn forking_needs_request_candidates_and_no_managed_resources() {
    let plain = invite(&[]);
    assert!(!uses_forking(&plain, None, 3, false));
    assert!(uses_forking(&plain, Some("extension_group"), 2, false));
    assert!(!uses_forking(&plain, Some("extension_group"), 1, false));
    assert!(!uses_forking(&plain, Some("extension_group"), 2, true));
    let flagged = invite(&[("X-Forking-Enabled", "  TRUE ")]);
    assert!(uses_forking(&flagged, None, 2, false));
    let other = invite(&[("X-Call-Forking", "true")]);
    assert!(uses_forking(&other, Some("extension"), 3, false));
    let off = invite(&[("X-Call-Forking", "yes")]);
    assert!(!uses_forking(&off, None, 3, false));
}

#[test]
fn single_leg_target_prefers_contact_then_override() {
    let uri = SipUri { text: "sip:2000@gw.example".to_string(), host: "gw.example".to_string(), port: None };
    assert_eq!(single_leg_target(Some("10.0.0.7:5062"), Some("10.0.0.8:5060"), &uri), "10.0.0.7:5062");
    assert_eq!(single_leg_target(None, Some("10.0.0.8:5060"), &uri), "10.0.0.8:5060");
    assert_eq!(single_leg_target(None, None, &uri), "gw.example:5060");
}

#[test]
fn forking_flags_compare_lowercased_values() {
    assert!(forks_by_flags(Some("true"), None, None, 2, false));
    assert!(forks_by_flags(None, Some("true"), None, 3, false));
    assert!(!forks_by_flags(Some("TRUE"), None, None, 2, false));
    assert!(!forks_by_flags(Some("yes"), Some("no"), Some("extension"), 2, false));
    assert!(!forks_by_flags(Some("true"), None, None, 2, true));
}
