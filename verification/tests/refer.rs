use sip_edge::in_dialog::{is_local_session_user, renegotiation_relay, reports_call_events};
use sip_edge::refer::{
    refer_failure_notify, refer_replaces, refer_trying_notify, transfer_target_sdp,
    transferee_leg, DialogLeg, ReferFailure,
};
use sip_edge::sip::Method;

#[test]
fn transferee_is_the_other_leg() {
    assert_eq!(transferee_leg(DialogLeg::Caller, None), DialogLeg::Gateway);
    assert_eq!(transferee_leg(DialogLeg::Gateway, None), DialogLeg::Caller);
    assert_eq!(transferee_leg(DialogLeg::Transfer, Some(DialogLeg::Gateway)), DialogLeg::Gateway);
    assert_eq!(transferee_leg(DialogLeg::Transfer, None), DialogLeg::Caller);
}

#[test]
fn refer_notifies_carry_status_and_cseq() {
    let trying = String::from_utf8(refer_trying_notify("c1", "<sip:a@x>;tag=1", "<sip:b@x>", 2, "edge:5060")).unwrap();
    assert!(trying.contains("CSeq: 52 NOTIFY\r\n"));
    assert!(trying.contains("Subscription-State: active;expires=60\r\n"));
    assert!(trying.ends_with("SIP/2.0 100 Trying\r\n"));
    let bad = String::from_utf8(refer_failure_notify("c1", "<sip:a@x>", "<sip:b@x>", 2, "edge:5060", ReferFailure::BadRequest)).unwrap();
    assert!(bad.contains("CSeq: 52 NOTIFY\r\n"));
    assert!(bad.contains("Subscription-State: terminated;reason=noresource\r\n"));
    assert!(bad.ends_with("SIP/2.0 400 Bad Request\r\n"));
    let missing = String::from_utf8(refer_failure_notify("c1", "<sip:a@x>", "<sip:b@x>", 2, "edge:5060", ReferFailure::NotFound)).unwrap();
    assert!(missing.contains("CSeq: 53 NOTIFY\r\n"));
    assert!(missing.ends_with("SIP/2.0 404 Not Found\r\n"));
    let busy = String::from_utf8(refer_failure_notify("c1", "<sip:a@x>", "<sip:b@x>", 2, "edge:5060", ReferFailure::Unavailable)).unwrap();
    assert!(busy.ends_with("SIP/2.0 503 Service Unavailable\r\n"));
}

#[test]
fn replaces_is_decoded_from_refer_to() {
    assert_eq!(
        refer_replaces(Some("<sip:b@x?Replaces=abc%40h%3Bto-tag%3D1>")),
        Some("abc@h;to-tag=1".to_string())
    );
    assert_eq!(
        refer_replaces(Some("<sip:b@x?foo=1&Replaces=a%3Bb>")),
        Some("a;b".to_string())
    );
    assert_eq!(refer_replaces(Some("sip:b@x?Replaces=tail")), Some("tail".to_string()));
    assert_eq!(refer_replaces(Some("<sip:b@x>")), None);
    assert_eq!(refer_replaces(None), None);
}

#[test]
fn transfer_target_offer_names_relay_port() {
    let sdp = transfer_target_sdp("10.0.0.1", 30000);
    assert_eq!(
        sdp,
        "v=0\r\no=- 0 0 IN IP4 10.0.0.1\r\ns=-\r\nc=IN IP4 10.0.0.1\r\nt=0 0\r\nm=audio 30000 RTP/AVP 0 8 101\r\na=rtpmap:0 PCMU/8000\r\na=rtpmap:8 PCMA/8000\r\na=rtpmap:101 telephone-event/8000\r\na=fmtp:101 0-16\r\n"
    );
}

#[test]
fn in_dialog_decisions() {
    assert!(is_local_session_user("conf_42"));
    assert!(is_local_session_user("room_1"));
    assert!(is_local_session_user("vosrs-gather"));
    assert!(!is_local_session_user("1001"));
    assert!(reports_call_events("http"));
    assert!(reports_call_events("nats"));
    assert!(!reports_call_events("off"));
    assert_eq!(renegotiation_relay(&Method::Invite, false, Some(DialogLeg::Caller)), Some(DialogLeg::Gateway));
    assert_eq!(renegotiation_relay(&Method::Update, false, Some(DialogLeg::Gateway)), Some(DialogLeg::Caller));
    assert_eq!(renegotiation_relay(&Method::Invite, true, Some(DialogLeg::Caller)), None);
    assert_eq!(renegotiation_relay(&Method::Bye, false, None), None);
}
