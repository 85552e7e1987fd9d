use sip_edge::ivr::menu::{
    action_plan, menu_tick, menu_timeout_secs, menu_webhook_payload, transfer_sdp_offer,
    ActionPlan, IvrAction, IvrMenu, MenuNext, MenuProgress,
};
use sip_edge::ivr::json::{json_to_string, JsonValue};

fn action(action_type: &str, target: &str, prompt: Option<&str>) -> IvrAction {
    IvrAction {
        action_type: action_type.to_string(),
        action_target: target.to_string(),
        waiting_prompt: prompt.map(|p| p.to_string()),
        webhook_method: None,
    }
}

fn menu() -> IvrMenu {
    IvrMenu {
        welcome_prompt: "welcome.wav".to_string(),
        timeout_secs: 0,
        actions: vec![
            ("1".to_string(), action("menu", "sub", Some("wait.wav"))),
            ("2".to_string(), action("hangup", "", Some("  "))),
        ],
    }
}

#[test]
fn menu_key_enters_submenu_with_waiting_prompt() {
    let m = menu();
    assert_eq!(menu_timeout_secs(&m), 10);
    let mut p = MenuProgress { accum: String::new(), retries: 0 };
    let t = menu_tick(&mut p, &m, Some("1"), false);
    assert!(t.stop_playback);
    assert_eq!(t.prompt.as_deref(), Some("wait.wav"));
    assert!(matches!(t.next, MenuNext::GotoMenu { ref menu_id } if menu_id == "sub"));
    assert_eq!(p.accum, "1");
}

#[test]
fn menu_key_runs_action_without_blank_prompt() {
    let m = menu();
    let mut p = MenuProgress { accum: "1".to_string(), retries: 0 };
    let t = menu_tick(&mut p, &m, Some("12"), false);
    assert_eq!(t.prompt, None);
    assert!(matches!(t.next, MenuNext::RunAction { ref action } if action.action_type == "hangup"));
}

#[test]
fn menu_retry_counts_invalid_keys_until_hangup() {
    // The collected digits are not cleared, so the same invalid key is seen
    // again on each poll once the taken keys are forgotten.
    let m = menu();
    let mut p = MenuProgress { accum: String::new(), retries: 0 };
    let t1 = menu_tick(&mut p, &m, Some("9"), false);
    assert!(matches!(t1.next, MenuNext::Poll));
    assert_eq!((p.retries, p.accum.as_str()), (1, ""));
    let t2 = menu_tick(&mut p, &m, Some("9"), false);
    assert!(matches!(t2.next, MenuNext::Poll));
    let t3 = menu_tick(&mut p, &m, Some("9"), false);
    assert!(matches!(t3.next, MenuNext::Hangup { ref reason } if reason == "IVR Max Retries Exceeded"));
}

#[test]
fn menu_times_out_without_keys() {
    let m = menu();
    let mut p = MenuProgress { accum: String::new(), retries: 0 };
    let idle = menu_tick(&mut p, &m, None, false);
    assert!(!idle.stop_playback);
    assert!(matches!(idle.next, MenuNext::Poll));
    let late = menu_tick(&mut p, &m, Some(""), true);
    assert!(late.stop_playback);
    assert!(matches!(late.next, MenuNext::Hangup { ref reason } if reason == "IVR Timeout"));
}

#[test]
fn key_actions_are_planned_by_type() {
    assert_eq!(action_plan(&action("extension", "8001", None)), ActionPlan::TransferExtension);
    assert_eq!(action_plan(&action("pstn", "138", None)), ActionPlan::TransferPstn);
    assert_eq!(action_plan(&action("queue", "q", None)), ActionPlan::Queue);
    let mut hook = action("webhook", "http://x", None);
    assert_eq!(action_plan(&hook), ActionPlan::Webhook { get: false });
    hook.webhook_method = Some("get".to_string());
    assert_eq!(action_plan(&hook), ActionPlan::Webhook { get: true });
    assert_eq!(action_plan(&action("say", "hi", None)), ActionPlan::Log);
    assert_eq!(action_plan(&action("hangup", "", None)), ActionPlan::Hangup);
    assert_eq!(action_plan(&action("dance", "", None)), ActionPlan::Unknown);
}

#[test]
fn transfer_offer_and_webhook_payload() {
    let sdp = transfer_sdp_offer("10.0.0.5", 40000);
    assert!(sdp.starts_with("v=0\r\no=vos-rs 123456 123456 IN IP4 10.0.0.5\r\n"));
    assert!(sdp.contains("c=IN IP4 10.0.0.5\r\n"));
    assert!(sdp.contains("m=audio 40000 RTP/AVP 0 8 101\r\n"));
    assert!(sdp.ends_with("a=sendrecv\r\n"));
    let payload = menu_webhook_payload("c1", "http://x", "<sip:a@b>", "2000");
    assert!(matches!(payload, JsonValue::Object(_)));
    assert_eq!(
        json_to_string(&payload),
        "{\"call_id\":\"c1\",\"callee\":\"2000\",\"caller\":\"<sip:a@b>\",\"dtmf_key\":\"http://x\"}"
    );
}
