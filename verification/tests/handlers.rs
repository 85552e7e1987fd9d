use sip_edge::handlers::{
    parse_sip_info_dtmf, percent_decode, rack_valid, replace_header_value, route_request,
    RequestRoute,
};
use sip_edge::sip::Method;

#[test]
fn replace_header_value_rewrites_matching_lines_only() {
    let raw = "INVITE sip:a@b SIP/2.0\r\nmax-forwards : 70\r\nVia: x\r\n\r\nbody";
    let out = replace_header_value(raw, "Max-Forwards", "69");
    assert_eq!(out, "INVITE sip:a@b SIP/2.0\r\nMax-Forwards: 69\r\nVia: x\r\n\r\nbody");
}

#[test]
fn replace_header_value_terminates_a_last_line_it_replaces() {
    assert_eq!(replace_header_value("A: 1\r\nB: 2", "b", "3"), "A: 1\r\nb: 3\r\n");
    assert_eq!(replace_header_value("", "b", "3"), "");
}

#[test]
fn info_dtmf_relay_reads_signal_line() {
    let body = b"Signal=5\r\nDuration=160\r\n";
    assert_eq!(parse_sip_info_dtmf("application/dtmf-relay", body), Some('5'));
    let body = b"Duration=160\nsignal= #\n";
    assert_eq!(parse_sip_info_dtmf("application/dtmf-relay", body), Some('#'));
    // The name must be followed directly by `=`.
    assert_eq!(parse_sip_info_dtmf("application/dtmf-relay", b"Signal =5"), None);
    assert_eq!(parse_sip_info_dtmf("application/dtmf-relay", b"Signal=E"), None);
    assert_eq!(parse_sip_info_dtmf("application/dtmf-relay", b"Signal=1=2"), None);
    assert_eq!(parse_sip_info_dtmf("application/dtmf-relay", b"Signal=12"), None);
}

#[test]
fn info_dtmf_plain_body_is_one_key() {
    assert_eq!(parse_sip_info_dtmf("application/dtmf", b" D \r\n"), Some('D'));
    assert_eq!(parse_sip_info_dtmf("application/dtmf", b"11"), None);
    assert_eq!(parse_sip_info_dtmf("text/plain", b"1"), None);
    assert_eq!(parse_sip_info_dtmf("application/dtmf", &[0xff]), None);
}

#[test]
fn percent_decode_handles_valid_and_broken_escapes() {
    assert_eq!(percent_decode("a%20b"), "a b");
    assert_eq!(percent_decode("%41%4a%4A"), "AJJ");
    assert_eq!(percent_decode("%zz1"), "%zz1");
    assert_eq!(percent_decode("50%"), "50%");
    assert_eq!(percent_decode("%4"), "\u{4}");
    assert_eq!(percent_decode("%+5x"), "\u{5}x");
    assert_eq!(percent_decode("%e9"), "é");
}

#[test]
fn requests_are_routed_by_method_and_to_tag() {
    assert_eq!(route_request(&Method::Register, true), RequestRoute::Register);
    assert_eq!(route_request(&Method::Message, true), RequestRoute::InDialog);
    assert_eq!(route_request(&Method::Message, false), RequestRoute::OutOfDialogMessage);
    assert_eq!(route_request(&Method::Bye, false), RequestRoute::InDialog);
    assert_eq!(route_request(&Method::Invite, true), RequestRoute::InDialog);
    assert_eq!(route_request(&Method::Invite, false), RequestRoute::Invite);
    assert_eq!(route_request(&Method::Prack, false), RequestRoute::InDialog);
    assert_eq!(route_request(&Method::Options, false), RequestRoute::Stateless);
}

#[test]
fn rack_needs_two_numbers_and_a_method() {
    assert!(rack_valid(Some("1 314 INVITE")));
    assert!(rack_valid(Some("  +1\t314   INVITE ")));
    assert!(!rack_valid(Some("1 314")));
    assert!(!rack_valid(Some("1 x INVITE")));
    assert!(!rack_valid(Some("1 4294967296 INVITE")));
    assert!(!rack_valid(None));
}

#[test]
fn replacing_a_header_twice_is_replacing_it_once() {
    let raw = "INVITE sip:a@b SIP/2.0\r\nVia: x\r\n session-expires : 90\r\nTo: <sip:a@b>\r\nbody";
    let once = replace_header_value(raw, "Session-Expires", "1800;refresher=uac");
    assert_eq!(
        once,
        "INVITE sip:a@b SIP/2.0\r\nVia: x\r\nSession-Expires: 1800;refresher=uac\r\nTo: <sip:a@b>\r\nbody"
    );
    assert_eq!(replace_header_value(&once, "Session-Expires", "1800;refresher=uac"), once);
    assert_eq!(replace_header_value(raw, "X-Absent", "v"), raw);
}
