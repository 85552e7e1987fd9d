use sip_edge::commands::{
    dial_caller_identity, dial_target, hangup_cause, hangup_reason_phrase,
    hangup_termination_reason, redirect_control_mode, ControlMode, DialParams, HangupParams,
};

fn dial(uri: Option<&str>, gateway: Option<&str>) -> DialParams {
    DialParams {
        target_gateway: gateway.map(|g| g.to_string()),
        target_uri: uri.map(|u| u.to_string()),
        caller_id: None,
        timeout_secs: None,
    }
}

#[test]
fn hangup_defaults_to_decline() {
    let cause = hangup_cause(&HangupParams { sip_cause: None });
    assert_eq!(cause, 603);
    assert_eq!(hangup_reason_phrase(cause), "Decline");
    assert_eq!(hangup_reason_phrase(486), "Busy Here");
    assert_eq!(hangup_reason_phrase(480), "Temporarily Unavailable");
    assert_eq!(hangup_reason_phrase(488), "Not Acceptable Here");
    assert_eq!(hangup_reason_phrase(503), "Service Unavailable");
    assert_eq!(hangup_termination_reason(cause), "VCI Hangup (603)");
}

#[test]
fn dial_target_prefers_uri_then_gateway() {
    assert_eq!(
        dial_target(&dial(Some("sip:8001@pbx"), Some("gw1")), "2000", Some("10.0.0.1"), "gw.default"),
        Some("sip:8001@pbx".to_string())
    );
    assert_eq!(
        dial_target(&dial(None, Some("gw1")), "2000", Some("10.0.0.1:5060"), "gw.default"),
        Some("sip:2000@10.0.0.1:5060".to_string())
    );
    assert_eq!(
        dial_target(&dial(None, Some("gw1")), "2000", None, "gw.default"),
        Some("sip:2000@gw.default".to_string())
    );
    assert_eq!(dial_target(&dial(None, None), "2000", None, "gw.default"), None);
}

#[test]
fn dial_identity_and_redirect_mode() {
    let id = dial_caller_identity(&Some("1001".to_string())).unwrap();
    assert_eq!(id.original_number, "1001");
    assert_eq!(id.presented_number, "1001");
    assert!(dial_caller_identity(&None).is_none());
    assert_eq!(redirect_control_mode("nats://x"), ControlMode::Nats);
    assert_eq!(redirect_control_mode("vos_rs.calls.1"), ControlMode::Nats);
    assert_eq!(redirect_control_mode("https://app/hook"), ControlMode::Http);
}
