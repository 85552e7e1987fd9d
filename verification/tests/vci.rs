use sip_edge::commands::{CommandAction, ControlMode};
use sip_edge::ivr::json::json_to_string;
use sip_edge::vci::{
    answer_headers, audio_sdp, command_instruction, dtmf_info_bodies, follow_up_event,
    gather_poll, gather_report, initial_reply, originate_invite, vci_step, webhook_headers, webhook_route,
    CallEvent, ControlReply, FollowUp, ParkedService, VciInstruction, VciStep, WebhookRoute,
};

fn play(url: &str, loop_count: u32) -> VciInstruction {
    VciInstruction::Play { url: url.to_string(), loop_count }
}

#[test]
fn proxy_commands_become_instructions() {
    let record = command_instruction(CommandAction::Record { max_length_secs: 30, play_beep: true });
    assert!(matches!(
        record,
        Some(VciInstruction::Record { max_length_secs: 30, play_beep: true, trim_silence: false })
    ));
    let say = command_instruction(CommandAction::Say { text: "hi".to_string(), voice: "zh-CN".to_string() });
    assert!(matches!(say, Some(VciInstruction::Say { ref text, ref voice, pitch: 0 }) if text == "hi" && voice == "zh-CN"));
    let queue = command_instruction(CommandAction::Queue { queue_id: "q1".to_string(), moh_url: "/moh.wav".to_string() });
    assert!(matches!(queue, Some(VciInstruction::Queue { priority: 1, .. })));
    let conf = command_instruction(CommandAction::Conference { room_id: "r".to_string(), start_muted: false });
    assert!(matches!(
        conf,
        Some(VciInstruction::Conference { end_on_exit: true, max_participants: 20, start_muted: false, .. })
    ));
    let digits = command_instruction(CommandAction::PlayDigits { digits: "12".to_string() });
    assert!(matches!(digits, Some(VciInstruction::PlayDigits { duration_ms: 100, .. })));
    let bridge = command_instruction(CommandAction::Bridge { call_id_a: "a".to_string(), call_id_b: "b".to_string() });
    assert!(bridge.is_none());
}

#[test]
fn instruction_for_unknown_call_is_ignored() {
    assert!(matches!(vci_step(play("/a.wav", 1), false, false), VciStep::Ignore));
}

#[test]
fn dial_calls_first_target() {
    let dial = VciInstruction::Dial {
        targets: vec!["sip:1001@a".to_string(), "sip:1002@b".to_string()],
        sim_ring: true,
        caller_id: Some("800".to_string()),
        timeout_secs: Some(30),
        record_call: false,
    };
    match vci_step(dial, true, false) {
        VciStep::Command { action: CommandAction::Dial { params } } => {
            assert_eq!(params.target_uri, Some("sip:1001@a".to_string()));
            assert_eq!(params.target_gateway, None);
            assert_eq!(params.caller_id, Some("800".to_string()));
            assert_eq!(params.timeout_secs, Some(30));
        }
        _ => panic!("dial must become a dial command"),
    }
    let empty = VciInstruction::Dial { targets: Vec::new(), sim_ring: false, caller_id: None, timeout_secs: None, record_call: false };
    assert!(matches!(
        vci_step(empty, false, true),
        VciStep::Command { action: CommandAction::Dial { params } } if params.target_uri.is_none()
    ));
}

#[test]
fn play_answers_parked_call_and_loops_only_when_repeated() {
    assert!(matches!(
        vci_step(play("/a.wav", 1), true, false),
        VciStep::Play { answer: Some(ParkedService::Playback), looped: false, ref url } if url == "/a.wav"
    ));
    assert!(matches!(
        vci_step(play("/a.wav", 3), false, true),
        VciStep::Play { answer: None, looped: true, .. }
    ));
}

#[test]
fn queue_plays_hold_music_in_a_loop() {
    let queue = VciInstruction::Queue { queue_id: "q".to_string(), moh_url: "/moh.wav".to_string(), priority: 1 };
    assert!(matches!(
        vci_step(queue, true, false),
        VciStep::Play { answer: Some(ParkedService::Playback), looped: true, ref url } if url == "/moh.wav"
    ));
}

#[test]
fn redirect_picks_control_channel() {
    let nats = VciInstruction::Redirect { url: "vos_rs.control.in".to_string() };
    assert!(matches!(vci_step(nats, false, true), VciStep::Redirect { mode: ControlMode::Nats, .. }));
    let http = VciInstruction::Redirect { url: "http://new-url/webhook".to_string() };
    assert!(matches!(vci_step(http, false, true), VciStep::Redirect { mode: ControlMode::Http, .. }));
}

#[test]
fn hangup_and_gather_steps() {
    let hangup = VciInstruction::Hangup { reason_code: 16, sip_cause: Some(486) };
    assert!(matches!(
        vci_step(hangup, false, true),
        VciStep::Command { action: CommandAction::Hangup { params } } if params.sip_cause == Some(486)
    ));
    let gather = VciInstruction::Gather {
        play_url: None,
        max_digits: 4,
        timeout_ms: 5000,
        inter_digit_timeout_ms: None,
        finish_on_key: None,
        barge_in: true,
    };
    assert!(matches!(
        vci_step(gather, true, true),
        VciStep::Gather { answer: Some(ParkedService::Gather), max_digits: 4, timeout_ms: 5000, .. }
    ));
}

#[test]
fn parked_service_names_and_tags() {
    assert_eq!(ParkedService::Tts.name(), "tts");
    assert_eq!(ParkedService::Tts.to_tag(), "vosrs-tts-tag");
    assert_eq!(ParkedService::Conference.to_tag(), "vosrs-conference-tag");
}

#[test]
fn callback_sequences_and_legs() {
    let (seq, event) = follow_up_event(FollowUp::GatherDone { digits: "123".to_string() });
    assert_eq!(seq, 3);
    assert!(matches!(event, CallEvent::DtmfReceived { ref digits, ref leg } if digits == "123" && leg == "a_leg"));
    let (seq, event) = follow_up_event(FollowUp::PlaybackDone);
    assert_eq!(seq, 2);
    assert!(matches!(event, CallEvent::CallAnswered { sip_status: 200, ref leg } if leg == "b_leg"));
    let (seq, event) = follow_up_event(FollowUp::PauseDone);
    assert_eq!(seq, 4);
    assert!(matches!(event, CallEvent::CallAnswered { ref leg, .. } if leg == "a_leg"));
    let (seq, _) = follow_up_event(FollowUp::SayStarted);
    assert_eq!(seq, 5);
    let (seq, event) = follow_up_event(FollowUp::Initiated { caller: Some("1001".to_string()), callee: "2000".to_string() });
    assert_eq!(seq, 1);
    assert!(matches!(
        event,
        CallEvent::CallInitiated { ref caller, ref callee, ref direction, .. }
            if caller.as_deref() == Some("1001") && callee.as_deref() == Some("2000") && direction == "inbound"
    ));
    let (_, event) = follow_up_event(FollowUp::Finished { duration_secs: 42, local_session: true });
    assert!(matches!(
        event,
        CallEvent::CallFinished { duration_secs: 42, sip_status: Some(200), q850_cause: Some(16), ref reason, .. }
            if reason == "Normal clearing (local session ended)"
    ));
}

#[test]
fn missing_instruction_hangs_up_with_500() {
    match initial_reply("c1".to_string(), None) {
        ControlReply::Command { command } => {
            assert_eq!(command.call_id, "c1");
            assert!(matches!(command.action, CommandAction::Hangup { params } if params.sip_cause == Some(500)));
        }
        _ => panic!("expected hangup"),
    }
    assert!(matches!(
        initial_reply("c1".to_string(), Some(VciInstruction::Pause { duration_ms: 10 })),
        ControlReply::Execute { instruction: VciInstruction::Pause { duration_ms: 10 } }
    ));
}

#[test]
fn gather_poll_stops_at_max_digits() {
    assert_eq!(gather_poll("1".to_string(), None, 3), ("1".to_string(), false));
    assert_eq!(gather_poll("1".to_string(), Some("12".to_string()), 3), ("12".to_string(), false));
    assert_eq!(gather_poll("12".to_string(), Some("123".to_string()), 3), ("123".to_string(), true));
}

#[test]
fn answer_sdp_for_gather_offers_telephone_events() {
    let sdp = audio_sdp("10.0.0.5", "gather", 30000, Some(0), true, true);
    assert_eq!(
        sdp,
        "v=0\r\no=vos-rs 123456 123456 IN IP4 10.0.0.5\r\ns=vos-rs-gather\r\nc=IN IP4 10.0.0.5\r\nt=0 0\r\nm=audio 30000 RTP/AVP 0 101\r\na=rtpmap:0 PCMU/8000\r\na=rtpmap:101 telephone-event/8000\r\na=fmtp:101 0-15\r\na=sendrecv\r\n"
    );
    let plain = audio_sdp("10.0.0.5", "playback", 30002, None, false, false);
    assert_eq!(
        plain,
        "v=0\r\no=vos-rs 123456 123456 IN IP4 10.0.0.5\r\ns=vos-rs-playback\r\nc=IN IP4 10.0.0.5\r\nt=0 0\r\nm=audio 30002 RTP/AVP 8\r\na=rtpmap:8 PCMA/8000\r\na=sendrecv\r\n"
    );
}

#[test]
fn answer_headers_name_contact() {
    assert_eq!(
        answer_headers("conf_7", "192.0.2.1:5060"),
        vec![
            ("Content-Type".to_string(), "application/sdp".to_string()),
            ("Contact".to_string(), "<sip:conf_7@192.0.2.1:5060>".to_string()),
        ]
    );
}

#[test]
fn originate_invite_carries_offer_and_its_length() {
    let bytes = originate_invite("sip:1001@198.51.100.2", "800", "192.0.2.1:5060", "192.0.2.1", 40000, "cmd-1", "gw-1", "tag-1");
    let text = String::from_utf8(bytes).unwrap();
    let sdp = "v=0\r\no=vos-rs 123456 123456 IN IP4 192.0.2.1\r\ns=vos-rs-originate\r\nc=IN IP4 192.0.2.1\r\nt=0 0\r\nm=audio 40000 RTP/AVP 8\r\na=rtpmap:8 PCMA/8000\r\na=sendrecv\r\n";
    let expected = format!(
        "INVITE sip:1001@198.51.100.2 SIP/2.0\r\nVia: SIP/2.0/UDP 192.0.2.1:5060;branch=z9hG4bK-originate-cmd-1\r\nMax-Forwards: 70\r\nFrom: <sip:800@192.0.2.1:5060>;tag=tag-1\r\nTo: <sip:1001@198.51.100.2>\r\nCall-ID: gw-1\r\nCSeq: 1 INVITE\r\nContact: <sip:vosrs-originate@192.0.2.1:5060>\r\nContent-Type: application/sdp\r\nContent-Length: {}\r\n\r\n{}",
        sdp.len(),
        sdp
    );
    assert_eq!(text, expected);
}

#[test]
fn dtmf_bodies_one_per_digit() {
    assert_eq!(
        dtmf_info_bodies("1#"),
        vec!["Signal=1\r\nDuration=160\r\n".to_string(), "Signal=#\r\nDuration=160\r\n".to_string()]
    );
    assert!(dtmf_info_bodies("").is_empty());
}

#[test]
fn webhook_routing() {
    assert_eq!(webhook_route("nats", ""), WebhookRoute::Nats);
    assert_eq!(webhook_route("http", "  "), WebhookRoute::Disabled);
    assert_eq!(webhook_route("http", "https://hooks.example/vci"), WebhookRoute::Http);
    assert_eq!(
        webhook_headers("evt-1", "1700000000", "abc"),
        vec![
            ("content-type".to_string(), "application/json".to_string()),
            ("x-vos-webhook-id".to_string(), "evt-1".to_string()),
            ("x-vos-webhook-timestamp".to_string(), "1700000000".to_string()),
            ("x-vos-webhook-signature".to_string(), "v1=abc".to_string()),
        ]
    );
}

#[test]
fn gather_report_json() {
    assert_eq!(
        json_to_string(&gather_report("c9", "42#")),
        "{\"call_id\":\"c9\",\"digits\":\"42#\",\"status\":\"success\"}"
    );
}
