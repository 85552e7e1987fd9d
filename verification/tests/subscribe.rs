use sip_edge::sip::{HeaderMap, Method, SipRequest, SipUri};
use sip_edge::subscribe::{
    build_notify, content_type_for, extract_tag_param, extract_uri, generate_local_tag,
    initial_body_for, new_subscription, notify_subscribers, requested_expires, subscribe_reply,
    dialog_end_notifies, dialog_terminated_body, subscribe_step, unsubscribe_notify, DialogEndFacts,
    EventPackage, NotifyTarget, SubscribeAction, SubscribeFacts, SubscribeRejection, Subscription,
    SubscriptionState,
};

fn sample_subscription() -> Subscription {
    Subscription {
        id: "test".to_string(),
        aor: "sip:1001@example.com".to_string(),
        event_package: EventPackage::Presence,
        contact_uri: "sip:watcher@10.0.0.1:5060".to_string(),
        from_uri: "sip:watcher@example.com".to_string(),
        to_uri: "sip:1001@example.com".to_string(),
        dialog_call_id: "call-1".to_string(),
        local_tag: "local-tag".to_string(),
        remote_tag: Some("remote-tag".to_string()),
        route_set: Vec::new(),
        last_cseq: 5,
    }
}

fn contact_of(subscription: &Subscription) -> SipUri {
    SipUri {
        text: subscription.contact_uri.clone(),
        host: "10.0.0.1".to_string(),
        port: Some(5060),
    }
}

fn check_extract_tag_param() {
    assert_eq!(
        extract_tag_param("<sip:a@b>;tag=abc123"),
        Some("abc123".to_string())
    );
    assert_eq!(extract_tag_param("<sip:a@b>"), None);
}

fn check_local_tag_stable() {
    let tag1 = generate_local_tag("call-1", "from-tag");
    let tag2 = generate_local_tag("call-1", "from-tag");
    assert_eq!(tag1, tag2);

    let tag3 = generate_local_tag("call-2", "from-tag");
    assert_ne!(tag1, tag3);
}

fn check_presence_body() {
    let body = initial_body_for(EventPackage::Presence, "sip:1001@example.com");
    assert!(body.contains("urn:ietf:params:xml:ns:pidf"));
    assert!(body.contains("sip:1001@example.com"));
}

fn check_dialog_body() {
    let body = initial_body_for(EventPackage::Dialog, "sip:1001@example.com");
    assert!(body.contains("dialog-info"));
    assert!(body.contains("entity=\"sip:1001@example.com\""));
}

fn check_mwi_body() {
    let body = initial_body_for(EventPackage::MessageSummary, "sip:1001@example.com");
    assert!(body.starts_with("Messages-Waiting: no"));
    assert!(body.contains("Voice-Message:"));
}

fn check_content_types() {
    assert_eq!(
        content_type_for(EventPackage::Presence),
        "application/pidf+xml"
    );
    assert_eq!(
        content_type_for(EventPackage::Dialog),
        "application/dialog-info+xml"
    );
    assert_eq!(
        content_type_for(EventPackage::MessageSummary),
        "application/simple-message-summary"
    );
}

fn check_notify_headers() {
    let subscription = sample_subscription();
    let contact = contact_of(&subscription);
    let body = initial_body_for(EventPackage::Presence, &subscription.aor);
    let notify = build_notify(
        &subscription,
        &body,
        &SubscriptionState::Active { expires: 600 },
        "127.0.0.1:5060",
        Some(&contact),
    );
    let notify_str = String::from_utf8(notify).unwrap();
    assert!(notify_str.starts_with("NOTIFY sip:watcher@10.0.0.1:5060 SIP/2.0"));
    assert!(notify_str.contains("CSeq: 6 NOTIFY"));
    assert!(notify_str.contains("Event: presence"));
    assert!(notify_str.contains("Subscription-State: active;expires=600"));
    assert!(notify_str.contains("Content-Type: application/pidf+xml"));
    assert!(notify_str.contains("To: <sip:watcher@example.com>;tag=remote-tag"));
    assert!(notify_str.contains("From: <sip:1001@example.com>;tag=local-tag"));
}

#[test]
fn subscribe_extract_tag_param_finds_tag() {
    check_extract_tag_param();
}

#[test]
fn tests_extract_tag_param_finds_tag() {
    check_extract_tag_param();
}

#[test]
fn subscribe_generate_local_tag_is_stable() {
    check_local_tag_stable();
}

#[test]
fn tests_generate_local_tag_is_stable() {
    check_local_tag_stable();
}

#[test]
fn subscribe_initial_body_for_presence_is_valid_xml() {
    check_presence_body();
}

#[test]
fn tests_initial_body_for_presence_is_valid_xml() {
    check_presence_body();
}

#[test]
fn subscribe_initial_body_for_dialog_includes_entity() {
    check_dialog_body();
}

#[test]
fn tests_initial_body_for_dialog_includes_entity() {
    check_dialog_body();
}

#[test]
fn subscribe_initial_body_for_mwi_has_voice_message_line() {
    check_mwi_body();
}

#[test]
fn tests_initial_body_for_mwi_has_voice_message_line() {
    check_mwi_body();
}

#[test]
fn subscribe_content_type_for_matches_event_package() {
    check_content_types();
}

#[test]
fn tests_content_type_for_matches_event_package() {
    check_content_types();
}

#[test]
fn subscribe_build_notify_includes_required_headers() {
    check_notify_headers();
}

#[test]
fn tests_build_notify_includes_required_headers() {
    check_notify_headers();
}

#[test]
fn local_tag_is_fnv1a_of_call_id_then_from_tag() {
    // FNV-1a (64-bit) of the empty input is the offset basis itself.
    assert_eq!(generate_local_tag("", ""), "vosrs-sub-cbf29ce484222325");
    // FNV-1a("a") = 0xaf63dc4c8601ec8c.
    assert_eq!(generate_local_tag("a", ""), "vosrs-sub-af63dc4c8601ec8c");
    assert_eq!(generate_local_tag("", "a"), "vosrs-sub-af63dc4c8601ec8c");
}

#[test]
fn notify_falls_back_to_advertised_subscriber_uri_and_reports_termination() {
    let mut subscription = sample_subscription();
    subscription.remote_tag = None;
    subscription.event_package = EventPackage::MessageSummary;
    let notify = build_notify(
        &subscription,
        "",
        &SubscriptionState::Terminated {
            reason: Some("timeout".to_string()),
        },
        "192.0.2.1:5060",
        None,
    );
    let text = String::from_utf8(notify).unwrap();
    assert!(text.starts_with("NOTIFY sip:subscriber@192.0.2.1:5060 SIP/2.0\r\n"));
    assert!(text.contains("Via: SIP/2.0/UDP 192.0.2.1:5060;branch=z9hG4bK-notify-call-1-6\r\n"));
    assert!(text.contains("\r\nTo: <sip:watcher@example.com>\r\n"));
    assert!(text.contains("Subscription-State: terminated;reason=timeout\r\n"));
    assert!(text.contains("Event: message-summary\r\n"));
    assert!(text.contains("Contact: <sip:vosrs@192.0.2.1:5060>\r\n"));
    assert!(text.ends_with("Content-Length: 0\r\n\r\n"));
}

#[test]
fn notify_content_length_counts_body_bytes() {
    let subscription = sample_subscription();
    let contact = contact_of(&subscription);
    let body = "é";
    let notify = build_notify(
        &subscription,
        body,
        &SubscriptionState::Terminated { reason: None },
        "127.0.0.1:5060",
        Some(&contact),
    );
    let text = String::from_utf8(notify).unwrap();
    assert!(text.contains("Subscription-State: terminated\r\n"));
    assert!(text.ends_with("Content-Length: 2\r\n\r\né"));
}

#[test]
fn extract_uri_reads_bracketed_uri() {
    assert_eq!(
        extract_uri("\"Alice\" <sip:alice@example.com>;tag=1"),
        Some("sip:alice@example.com".to_string())
    );
}

fn check_no_subscribers() {
    let datagrams = notify_subscribers(&Vec::new(), "body", "127.0.0.1:5060");
    assert!(datagrams.is_empty());
}

#[test]
fn subscribe_notify_subscribers_returns_empty_when_no_subscribers() {
    check_no_subscribers();
}

#[test]
fn tests_notify_subscribers_returns_empty_when_no_subscribers() {
    check_no_subscribers();
}

#[test]
fn notify_subscribers_reports_timeout_or_remaining_time() {
    let live = NotifyTarget {
        subscription: sample_subscription(),
        remaining_secs: 120,
        contact: None,
        peer: "10.0.0.1:5060".to_string(),
    };
    let expired = NotifyTarget {
        subscription: sample_subscription(),
        remaining_secs: 0,
        contact: None,
        peer: "10.0.0.2:5062".to_string(),
    };
    let out = notify_subscribers(&vec![live, expired], "b", "10.0.0.9:5060");
    assert_eq!(out.len(), 2);
    assert_eq!(out[0].0, "10.0.0.1:5060");
    assert_eq!(out[1].0, "10.0.0.2:5062");
    let first = String::from_utf8(out[0].1.clone()).unwrap();
    let second = String::from_utf8(out[1].1.clone()).unwrap();
    assert!(first.contains("Subscription-State: active;expires=120\r\n"));
    assert!(second.contains("Subscription-State: terminated;reason=timeout\r\n"));
    assert!(second.starts_with("NOTIFY sip:subscriber@10.0.0.9:5060 SIP/2.0\r\n"));
}

fn subscribe_request(headers: &[(&str, &str)]) -> SipRequest {
    let mut map = HeaderMap::new();
    for (k, v) in headers {
        map.push(k.to_string(), v.to_string());
    }
    SipRequest {
        method: Method::Subscribe,
        uri: "sip:1001@example.com".to_string(),
        headers: map,
        body: Vec::new(),
    }
}

#[test]
fn new_subscription_fills_dialog_from_request() {
    let request = subscribe_request(&[
        ("Call-ID", "sub-call-1"),
        ("From", "<sip:watcher@example.com>;tag=w1"),
        ("To", "<sip:1001@example.com>"),
        ("Contact", "<sip:watcher@10.0.0.1:5060>"),
        ("Record-Route", "<sip:proxy1;lr>"),
        ("Record-Route", "<sip:proxy2;lr>"),
    ]);
    let sub = new_subscription(&request, "sub-1", Some(EventPackage::Dialog)).unwrap();
    assert_eq!(sub.id, "sub-1");
    assert_eq!(sub.aor, "sip:1001@example.com");
    assert_eq!(sub.event_package, EventPackage::Dialog);
    assert_eq!(sub.contact_uri, "sip:watcher@10.0.0.1:5060");
    assert_eq!(sub.from_uri, "sip:watcher@example.com");
    assert_eq!(sub.to_uri, "sip:1001@example.com");
    assert_eq!(sub.dialog_call_id, "sub-call-1");
    assert_eq!(sub.local_tag, generate_local_tag("sub-call-1", "w1"));
    assert_eq!(sub.remote_tag, Some("w1".to_string()));
    assert_eq!(sub.route_set, vec!["<sip:proxy1;lr>".to_string(), "<sip:proxy2;lr>".to_string()]);
    assert_eq!(sub.last_cseq, 0);
}

#[test]
fn new_subscription_defaults_aor_without_to() {
    let request = subscribe_request(&[
        ("Call-ID", "c"),
        ("From", "<sip:w@example.com>;tag=t"),
        ("Contact", "<sip:w@10.0.0.1>"),
    ]);
    let sub = new_subscription(&request, "s", Some(EventPackage::Presence)).unwrap();
    assert_eq!(sub.aor, "sip:unknown@localhost");
    assert_eq!(sub.to_uri, "");
}

#[test]
fn new_subscription_reports_each_rejection() {
    let no_call_id = subscribe_request(&[("From", "<sip:w@e>;tag=t"), ("Contact", "<sip:w@h>")]);
    assert_eq!(
        new_subscription(&no_call_id, "s", Some(EventPackage::Presence)).err(),
        Some(SubscribeRejection::MissingCallId)
    );
    let no_tag = subscribe_request(&[("Call-ID", "c"), ("From", "<sip:w@e>"), ("Contact", "<sip:w@h>")]);
    assert_eq!(
        new_subscription(&no_tag, "s", Some(EventPackage::Presence)).err(),
        Some(SubscribeRejection::MissingFromTag)
    );
    let ok_headers = subscribe_request(&[("Call-ID", "c"), ("From", "<sip:w@e>;tag=t"), ("Contact", "<sip:w@h>")]);
    assert_eq!(new_subscription(&ok_headers, "s", None).err(), Some(SubscribeRejection::BadEvent));
    let no_contact = subscribe_request(&[("Call-ID", "c"), ("From", "<sip:w@e>;tag=t")]);
    assert_eq!(
        new_subscription(&no_contact, "s", Some(EventPackage::Presence)).err(),
        Some(SubscribeRejection::InvalidContact)
    );
}

#[test]
fn requested_expires_reads_trimmed_number_or_default() {
    assert_eq!(requested_expires(Some(" 600 "), 3600), 600);
    assert_eq!(requested_expires(Some("0"), 3600), 0);
    assert_eq!(requested_expires(Some("soon"), 3600), 3600);
    assert_eq!(requested_expires(None, 1800), 1800);
}

#[test]
fn subscribe_reply_statuses() {
    let ok = subscribe_reply(None, 600);
    assert_eq!((ok.status, ok.reason), (200, "OK"));
    assert_eq!(ok.headers, vec![("Expires".to_string(), "600".to_string())]);
    let bad_event = subscribe_reply(Some(SubscribeRejection::BadEvent), 0);
    assert_eq!((bad_event.status, bad_event.reason), (489, "Bad Event"));
    assert_eq!(
        bad_event.headers,
        vec![("Allow-Events".to_string(), "presence,dialog,message-summary".to_string())]
    );
    let bad = subscribe_reply(Some(SubscribeRejection::MissingFromTag), 0);
    assert_eq!((bad.status, bad.reason), (400, "Bad Request"));
    assert_eq!(bad.headers, vec![("X-VOS-RS-Error".to_string(), "missing From tag".to_string())]);
}

fn facts(event: Option<EventPackage>) -> SubscribeFacts {
    SubscribeFacts {
        event,
        granted_expires: 600,
        subscription_id: "sub-9".to_string(),
        default_expires: 3600,
        contact: None,
    }
}

fn full_subscribe(expires: Option<&str>) -> SipRequest {
    let mut headers = vec![
        ("Call-ID", "sc-1"),
        ("From", "<sip:watcher@example.com>;tag=w9"),
        ("To", "<sip:1001@example.com>"),
        ("Contact", "<sip:watcher@10.0.0.1:5060>"),
    ];
    if let Some(e) = expires {
        headers.push(("Expires", e));
    }
    subscribe_request(&headers)
}

#[test]
fn subscribe_step_accepts_with_ok_then_notify() {
    match subscribe_step(&full_subscribe(None), "10.0.0.1:5060", facts(Some(EventPackage::Dialog)), "192.0.2.1:5060") {
        SubscribeAction::Subscribe { subscription, reply, notify } => {
            assert_eq!(subscription.id, "sub-9");
            assert_eq!(reply.status, 200);
            assert_eq!(reply.headers, vec![("Expires".to_string(), "600".to_string())]);
            assert_eq!(notify.0, "10.0.0.1:5060");
            let text = String::from_utf8(notify.1).unwrap();
            assert!(text.starts_with("NOTIFY sip:subscriber@192.0.2.1:5060 SIP/2.0\r\n"));
            assert!(text.contains("CSeq: 1 NOTIFY\r\n"));
            assert!(text.contains("Subscription-State: active;expires=600\r\n"));
            assert!(text.ends_with("entity=\"sip:1001@example.com\">\n</dialog-info>"));
        }
        _ => panic!("expected an accepted subscription"),
    }
}

#[test]
fn subscribe_step_refuses_and_unsubscribes() {
    match subscribe_step(&full_subscribe(None), "p", facts(None), "a") {
        SubscribeAction::Refuse { reply } => assert_eq!((reply.status, reply.reason), (489, "Bad Event")),
        _ => panic!("expected 489"),
    }
    match subscribe_step(&full_subscribe(Some(" 0 ")), "p", facts(Some(EventPackage::Presence)), "a") {
        SubscribeAction::Unsubscribe { id, reply } => {
            assert_eq!(id, "sub-9");
            assert_eq!(reply.status, 200);
        }
        _ => panic!("expected an unsubscribe"),
    }
    let removed = NotifyTarget {
        subscription: sample_subscription(),
        remaining_secs: 0,
        contact: None,
        peer: "10.0.0.3:5060".to_string(),
    };
    let (to, bytes) = unsubscribe_notify(Some(&removed), "10.0.0.9:5060").unwrap();
    assert_eq!(to, "10.0.0.3:5060");
    let text = String::from_utf8(bytes).unwrap();
    assert!(text.contains("Subscription-State: terminated\r\n"));
    assert!(text.ends_with("Content-Length: 0\r\n\r\n"));
    assert!(unsubscribe_notify(None, "a").is_none());
}

#[test]
fn dialog_end_notifies_watchers_of_answered_calls() {
    let watcher = |peer: &str| NotifyTarget {
        subscription: sample_subscription(),
        remaining_secs: 30,
        contact: None,
        peer: peer.to_string(),
    };
    let facts = DialogEndFacts {
        established: true,
        call_id: "call-7".to_string(),
        caller_aor: "sip:1001@example.com".to_string(),
        callee_aor: "sip:2000@example.com".to_string(),
        caller_watchers: vec![watcher("10.0.0.4:5060")],
        callee_watchers: vec![watcher("10.0.0.5:5060"), watcher("10.0.0.6:5060")],
    };
    let out = dialog_end_notifies(&facts, "192.0.2.1:5060");
    assert_eq!(out.len(), 3);
    assert_eq!(out[0].0, "10.0.0.4:5060");
    assert_eq!(out[2].0, "10.0.0.6:5060");
    let first = String::from_utf8(out[0].1.clone()).unwrap();
    assert!(first.contains("entity=\"sip:1001@example.com\">\n<dialog id=\"call-7\">\n<state>terminated</state>"));
    let last = String::from_utf8(out[2].1.clone()).unwrap();
    assert!(last.contains("entity=\"sip:2000@example.com\""));
    let unanswered = DialogEndFacts { established: false, ..facts };
    assert!(dialog_end_notifies(&unanswered, "a").is_empty());
    assert_eq!(dialog_terminated_body("a", "c"), "<?xml version=\"1.0\" encoding=\"UTF-8\"?>\n<dialog-info xmlns=\"urn:ietf:params:xml:ns:dialog-info\"\nversion=\"1\" state=\"full\" entity=\"a\">\n<dialog id=\"c\">\n<state>terminated</state>\n</dialog>\n</dialog-info>");
}
