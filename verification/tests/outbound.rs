use sip_edge::outbound::{
    build_b2bua_in_dialog_request, build_gateway_options, build_notify_sipfrag,
    caller_identity_headers, target_addr_for, CallerIdentity,
};
use sip_edge::sip::{HeaderMap, Method, SipRequest, SipUri};

fn uri(text: &str, host: &str, port: Option<u16>) -> SipUri {
    SipUri {
        text: text.to_string(),
        host: host.to_string(),
        port,
    }
}

fn request(method: Method, request_uri: &str, headers: &[(&str, &str)], body: &[u8]) -> SipRequest {
    let mut map = HeaderMap::new();
    for (name, value) in headers {
        map.push(name.to_string(), value.to_string());
    }
    SipRequest {
        method,
        uri: request_uri.to_string(),
        headers: map,
        body: body.to_vec(),
    }
}

fn invite_request() -> SipRequest {
    request(
        Method::Invite,
        "sip:13800138000@example.com",
        &[
            ("Via", "SIP/2.0/UDP 192.0.2.10:5060;branch=z9hG4bK-1"),
            ("Max-Forwards", "70"),
            ("From", "<sip:1001@example.com>;tag=from-tag"),
            ("To", "<sip:13800138000@example.com>"),
            ("Call-ID", "call-1@example.com"),
            ("CSeq", "1 INVITE"),
            ("Content-Type", "application/sdp"),
            ("Content-Length", "5"),
        ],
        b"v=0\r\n",
    )
}

#[test]
fn caller_identity_headers_rebuild_from_and_pai_without_forwarding_display_name() {
    let inbound = invite_request();
    let identity = CallerIdentity {
        original_number: "1001".to_string(),
        presented_number: "13800138000".to_string(),
    };
    let headers = caller_identity_headers(&inbound, "edge.example.com:5060", &identity)
        .expect("valid identity headers");
    assert_eq!(
        headers,
        "From: <sip:13800138000@edge.example.com:5060>;tag=from-tag\r\n\
         P-Asserted-Identity: <sip:13800138000@edge.example.com:5060>\r\n"
    );
    assert!(!headers.contains("1001"));
}

#[test]
fn caller_identity_headers_reject_header_injection() {
    let inbound = invite_request();
    let identity = CallerIdentity {
        original_number: "1001".to_string(),
        presented_number: "13800138000\r\nX-Evil: yes".to_string(),
    };
    assert!(caller_identity_headers(&inbound, "edge.example.com", &identity).is_none());
}

#[test]
fn builds_gateway_options_probe() {
    let target = uri("sip:health-check@gw1.example.com:5060", "gw1.example.com", Some(5060));
    let options = String::from_utf8(build_gateway_options(
        &target,
        "edge.example.com:5060",
        "health-probe-gw1-1",
        1,
    ))
    .unwrap();

    assert!(options.starts_with("OPTIONS sip:health-check@gw1.example.com:5060 SIP/2.0\r\n"));
    assert!(options.contains("CSeq: 1 OPTIONS\r\n"));
    assert!(options.contains("Call-ID: health-probe-gw1-1\r\n"));
    assert!(options.contains("Content-Length: 0\r\n\r\n"));
}

#[test]
fn b2bua_in_dialog_request_uses_only_target_leg_dialog_identifiers() {
    let inbound = request(
        Method::Bye,
        "sip:edge@example.com",
        &[
            ("Via", "SIP/2.0/UDP caller.example.com;branch=caller-branch"),
            ("From", "<sip:caller@example.com>;tag=caller-tag"),
            ("To", "<sip:callee@example.com>;tag=edge-a-tag"),
            ("Call-ID", "caller-leg-id"),
            ("CSeq", "44 BYE"),
            ("Reason", "SIP;cause=200;text=normal"),
            ("Content-Length", "0"),
        ],
        b"",
    );
    let target = uri("sip:callee@callee.example.com:5070", "callee.example.com", Some(5070));
    let local = uri("sip:caller@edge.example.com", "edge.example.com", None);
    let remote = uri("sip:callee@callee.example.com", "callee.example.com", None);

    let outbound = String::from_utf8(build_b2bua_in_dialog_request(
        &inbound,
        &target,
        "edge.example.com:5060",
        &["<sip:proxy.example.com;lr>".to_string()],
        "gateway-leg-id",
        &local,
        "edge-b-tag",
        &remote,
        Some("callee-tag"),
        9,
        &[],
    ))
    .unwrap();

    assert!(outbound.starts_with("BYE sip:callee@callee.example.com:5070 SIP/2.0\r\n"));
    assert!(outbound.contains("Route: <sip:proxy.example.com;lr>\r\n"));
    assert!(outbound.contains("From: <sip:caller@edge.example.com>;tag=edge-b-tag\r\n"));
    assert!(outbound.contains("To: <sip:callee@callee.example.com>;tag=callee-tag\r\n"));
    assert!(outbound.contains("Call-ID: gateway-leg-id\r\n"));
    assert!(outbound.contains("CSeq: 9 BYE\r\n"));
    assert!(!outbound.contains("caller-leg-id"));
    assert!(!outbound.contains("caller-tag"));
    assert!(!outbound.contains("caller-branch"));
}

#[test]
fn target_addr_defaults_to_5060() {
    let target = uri("sip:13800138000@gw1.example.com", "gw1.example.com", None);

    assert_eq!(target_addr_for(&target), "gw1.example.com:5060");
}

#[test]
fn builds_notify_sipfrag_for_refer_progress() {
    let notify = build_notify_sipfrag(
        "refer-call@example.com",
        "<sip:1001@example.com>;tag=from-tag",
        "<sip:13800138000@example.com>;tag=to-tag",
        52,
        "edge.example.com:5060",
        "SIP/2.0 100 Trying\r\n",
    );
    let notify = String::from_utf8(notify).expect("NOTIFY should be UTF-8");

    assert!(notify.starts_with("NOTIFY sip:1001@example.com SIP/2.0\r\n"));
    assert!(notify.contains(
        "Via: SIP/2.0/UDP edge.example.com:5060;branch=z9hG4bK-notify-refer-call-example-com-52\r\n"
    ));
    assert!(notify.contains("From: <sip:13800138000@example.com>;tag=to-tag\r\n"));
    assert!(notify.contains("To: <sip:1001@example.com>;tag=from-tag\r\n"));
    assert!(notify.contains("Call-ID: refer-call@example.com\r\n"));
    assert!(notify.contains("CSeq: 52 NOTIFY\r\n"));
    assert!(notify.contains("Event: refer\r\n"));
    assert!(notify.contains("Subscription-State: active;expires=60\r\n"));
    assert!(notify.contains("Content-Type: message/sipfrag;version=2.0\r\n"));
    assert!(notify.ends_with("Content-Length: 20\r\n\r\nSIP/2.0 100 Trying\r\n"));
}
