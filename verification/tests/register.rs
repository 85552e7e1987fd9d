use sip_edge::register::{
    register_ok_headers, registration_sync_plan, registration_transport, RegisterOutcome,
    RegisteredContact,
};
use sip_edge::sip::{HeaderMap, Method, SipRequest};

fn register_with_via(via: Option<&str>) -> SipRequest {
    let mut headers = HeaderMap::new();
    if let Some(v) = via {
        headers.push("Via".to_string(), v.to_string());
    }
    SipRequest {
        method: Method::Register,
        uri: "sip:example.com".to_string(),
        headers,
        body: Vec::new(),
    }
}

#[test]
fn registration_transport_follows_via() {
    assert_eq!(registration_transport(&register_with_via(Some("SIP/2.0/wss h;branch=1"))), Some("wss"));
    assert_eq!(registration_transport(&register_with_via(Some("SIP/2.0/WS h"))), Some("ws"));
    assert_eq!(registration_transport(&register_with_via(Some("SIP/2.0/TLS h"))), Some("tls"));
    assert_eq!(registration_transport(&register_with_via(Some("SIP/2.0/TCP h"))), Some("tcp"));
    assert_eq!(registration_transport(&register_with_via(Some("SIP/2.0/UDP h"))), None);
    assert_eq!(registration_transport(&register_with_via(None)), None);
}

#[test]
fn registration_sync_deletes_when_no_binding_remains() {
    let outcome = RegisterOutcome {
        aor: "sip:1001@example.com".to_string(),
        contacts: vec![RegisteredContact { uri: "sip:1001@192.0.2.1".to_string(), expires: 0 }],
    };
    let plan = registration_sync_plan(&register_with_via(Some("SIP/2.0/TCP h")), &outcome, true);
    assert_eq!(plan.registration_key, "vos_rs:reg:sip:1001@example.com");
    assert!(plan.delete);
    assert_eq!(plan.ttl_secs, 0);
    assert_eq!(plan.flow_transport, None);
}

#[test]
fn registration_sync_writes_longest_lifetime_and_flow() {
    let outcome = RegisterOutcome {
        aor: "sip:1001@example.com".to_string(),
        contacts: vec![
            RegisteredContact { uri: "sip:a".to_string(), expires: 60 },
            RegisteredContact { uri: "sip:b".to_string(), expires: 3600 },
        ],
    };
    let plan = registration_sync_plan(&register_with_via(Some("SIP/2.0/TCP h")), &outcome, true);
    assert!(!plan.delete);
    assert_eq!(plan.ttl_secs, 3600);
    assert_eq!(plan.flow_transport, Some("tcp"));
    let plan = registration_sync_plan(&register_with_via(Some("SIP/2.0/TCP h")), &outcome, false);
    assert_eq!(plan.flow_transport, None);
}

#[test]
fn register_ok_lists_aor_contacts_and_service_route() {
    let outcome = RegisterOutcome {
        aor: "sip:1001@example.com".to_string(),
        contacts: vec![RegisteredContact { uri: "sip:1001@192.0.2.1:5060".to_string(), expires: 300 }],
    };
    let headers = register_ok_headers(&outcome, "10.0.0.1:5060");
    assert_eq!(
        headers,
        vec![
            ("X-VOS-RS-AOR".to_string(), "sip:1001@example.com".to_string()),
            ("Contact".to_string(), "<sip:1001@192.0.2.1:5060>;expires=300".to_string()),
            ("Service-Route".to_string(), "<sip:10.0.0.1:5060;lr>".to_string()),
        ]
    );
}
