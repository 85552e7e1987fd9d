use sip_edge::ivr::menu::{ivr_setup_step, IvrSetupAction, IvrSetupEvent, IvrSetupFailure, IvrSetupStage};
use sip_edge::admission::{
    invite_start, invite_step, source_step, AuthDecision, BillingFailure, InviteAction, InviteEvent,
    InviteReject, InviteStage, RouteResult, SourceAction, SourceEvent, SourceKind, SourceReject,
    SourceState,
};
use sip_edge::command_flow::{command_step, CallTableView, CommandPlan};
use sip_edge::commands::{CallCommand, CommandAction, HangupParams, PlayParams};
use sip_edge::in_dialog::{
    bye_cancel_step, in_dialog_step, ByeFacts, DialogView, InDialogEvent, InDialogOutcome, TransferView,
};
use sip_edge::invite::{DidRoute, FraudBlock};
use sip_edge::message::{message_route, ContactView, MessageAction, RouteLookup};
use sip_edge::refer::{refer_start, refer_step, DialogLeg, ReferAction, ReferEvent, ReferFailure};
use sip_edge::sip::{HeaderMap, Method, SipRequest, SipUri};

fn arrived(to_user: &str, uri_user: &str, seen: bool, draining: bool) -> InviteEvent {
    InviteEvent::Arrived {
        has_call_id: true,
        has_auth: false,
        seen_within_500ms: seen,
        draining,
        to_user: to_user.to_string(),
        uri_user: uri_user.to_string(),
    }
}

#[test]
fn invite_admission_runs_checks_in_order() {
    let (s, a) = invite_step(&invite_start(), arrived("2000", "2000", true, false));
    assert!(matches!(a, InviteAction::Ignore));
    assert_eq!(s.stage, InviteStage::Done);
    let (_, a) = invite_step(&invite_start(), arrived("2000", "2000", false, true));
    assert!(matches!(a, InviteAction::Refuse { reject: InviteReject::Draining }));
    let (_, a) = invite_step(&invite_start(), arrived("2000", "room_7", false, false));
    assert!(matches!(a, InviteAction::JoinConference { ref conf_id } if conf_id == "room_7"));

    let (s, a) = invite_step(&invite_start(), arrived("2000", "2000", false, false));
    assert!(matches!(a, InviteAction::CheckFraud));
    let (s, a) = invite_step(&s, InviteEvent::FraudChecked { block: None });
    assert!(matches!(a, InviteAction::CheckUserLoad));
    let (s, a) = invite_step(&s, InviteEvent::UserLoad { active: Some(1), limit: 5 });
    assert!(matches!(a, InviteAction::ResolveSource));
    let (s, a) = invite_step(&s, InviteEvent::SourceResolved { result: Ok((true, Some(DidRoute::Extension))) });
    assert!(matches!(a, InviteAction::CheckTenant));
    assert!(s.from_gateway);
    let (s, a) = invite_step(&s, InviteEvent::TenantChecked { refused: false });
    assert!(matches!(a, InviteAction::FindDestination));
    let (_, a) = invite_step(&s, InviteEvent::Destination { webhook_control: false, registered: false });
    assert!(matches!(a, InviteAction::Refuse { reject: InviteReject::DidExtensionOffline }));
    let (s, a) = invite_step(&s, InviteEvent::Destination { webhook_control: false, registered: true });
    assert!(matches!(a, InviteAction::RouteStandard));
    let (s, a) = invite_step(&s, InviteEvent::Routed { result: RouteResult::Routed { has_plan: true } });
    assert!(matches!(a, InviteAction::CheckGatewayDomain));
    let (s, a) = invite_step(&s, InviteEvent::DomainChecked { mismatch: false });
    assert!(matches!(a, InviteAction::CheckBalance));
    let (_, a) = invite_step(&s, InviteEvent::BalanceChecked { applies: true, check: Some((true, false, true)) });
    assert!(matches!(a, InviteAction::Refuse { reject: InviteReject::Billing { failure: BillingFailure::NoRate } }));
    let (s, a) = invite_step(&s, InviteEvent::BalanceChecked { applies: false, check: None });
    assert!(matches!(a, InviteAction::AcquireLease));
    let (_, a) = invite_step(&s, InviteEvent::LeaseDone { acquired: false });
    assert!(matches!(a, InviteAction::Refuse { reject: InviteReject::NoLease }));
    let (s, a) = invite_step(&s, InviteEvent::LeaseDone { acquired: true });
    assert!(matches!(a, InviteAction::Forward));
    assert_eq!(s.stage, InviteStage::Done);
}

#[test]
fn invite_refusals_from_checks() {
    let (s, _) = invite_step(&invite_start(), arrived("2000", "2000", false, false));
    let (_, a) = invite_step(&s, InviteEvent::FraudChecked { block: Some(FraudBlock::Blacklisted) });
    assert!(matches!(a, InviteAction::Refuse { reject: InviteReject::Fraud { block: FraudBlock::Blacklisted } }));
    let (s, _) = invite_step(&s, InviteEvent::FraudChecked { block: None });
    let (_, a) = invite_step(&s, InviteEvent::UserLoad { active: Some(5), limit: 5 });
    assert!(matches!(a, InviteAction::Refuse { reject: InviteReject::UserBusy }));
    let (s, _) = invite_step(&s, InviteEvent::UserLoad { active: None, limit: 0 });
    let (_, a) = invite_step(&s, InviteEvent::SourceResolved { result: Err(SourceReject::Challenge) });
    assert!(matches!(a, InviteAction::Refuse { reject: InviteReject::Source { reject: SourceReject::Challenge } }));
    // An event out of turn changes nothing.
    let (s2, a) = invite_step(&s, InviteEvent::LeaseDone { acquired: true });
    assert!(matches!(a, InviteAction::Ignore));
    assert_eq!(s2, s);
}

#[test]
fn source_from_egress_trunk() {
    let (_, a) = source_step(SourceState::Start, SourceEvent::Egress {
        trunk: Some("gw1".to_string()),
        owns_number: false,
        did_target_type: None,
        username: None,
    });
    assert!(matches!(a, SourceAction::Refuse { reject: SourceReject::NotNumberOwner }));
    let (_, a) = source_step(SourceState::Start, SourceEvent::Egress {
        trunk: Some("default".to_string()),
        owns_number: false,
        did_target_type: Some("reject".to_string()),
        username: None,
    });
    assert!(matches!(a, SourceAction::Refuse { reject: SourceReject::DidRejected }));
    let (_, a) = source_step(SourceState::Start, SourceEvent::Egress {
        trunk: Some("gw1".to_string()),
        owns_number: true,
        did_target_type: Some("queue".to_string()),
        username: None,
    });
    assert!(matches!(a, SourceAction::Refuse { reject: SourceReject::InvalidDidTarget }));
    let (_, a) = source_step(SourceState::Start, SourceEvent::Egress {
        trunk: Some("gw1".to_string()),
        owns_number: true,
        did_target_type: Some("ivr".to_string()),
        username: None,
    });
    assert!(matches!(
        a,
        SourceAction::Resolved { ref source, from_gateway: true, did: Some(DidRoute::Ivr) }
            if source.kind == SourceKind::Trunk && source.id == "gw1"
    ));
}

#[test]
fn source_from_access_or_user() {
    let (s, a) = source_step(SourceState::Start, SourceEvent::Egress {
        trunk: None,
        owns_number: false,
        did_target_type: None,
        username: None,
    });
    assert!(matches!(a, SourceAction::AskAccessTrunk));
    let (_, a) = source_step(s, SourceEvent::Access {
        trunk: Ok(None),
        mode: String::new(),
        auth_enabled: false,
        bypass: false,
    });
    assert!(matches!(a, SourceAction::Resolved { ref source, .. } if source.kind == SourceKind::Extension && source.id == "1001"));

    let s = SourceState::Access { username: Some("1002".to_string()) };
    let (s, a) = source_step(s, SourceEvent::Access { trunk: Ok(None), mode: String::new(), auth_enabled: true, bypass: false });
    assert!(matches!(a, SourceAction::AskUserKind));
    let (s, a) = source_step(s, SourceEvent::UserKind { is_trunk: false });
    assert!(matches!(a, SourceAction::VerifyDigest { as_trunk: false }));
    let (_, a) = source_step(s, SourceEvent::Verified { decision: AuthDecision::Accepted, trunk_for_user: None });
    assert!(matches!(a, SourceAction::Resolved { ref source, .. } if source.kind == SourceKind::Extension && source.id == "1002"));

    let s = SourceState::Access { username: None };
    let (s, a) = source_step(s, SourceEvent::Access {
        trunk: Ok(Some("acc1".to_string())),
        mode: "ip_and_digest".to_string(),
        auth_enabled: true,
        bypass: false,
    });
    assert!(matches!(a, SourceAction::VerifyDigest { as_trunk: true }));
    let (_, a) = source_step(s, SourceEvent::Verified { decision: AuthDecision::ChallengeWithFailure, trunk_for_user: None });
    assert!(matches!(a, SourceAction::Refuse { reject: SourceReject::ChallengeAfterFailure }));
    let (_, a) = source_step(SourceState::Access { username: None }, SourceEvent::Access {
        trunk: Err(()),
        mode: String::new(),
        auth_enabled: true,
        bypass: false,
    });
    assert!(matches!(a, SourceAction::Refuse { reject: SourceReject::OverlappingIpRules }));
}

fn view() -> DialogView {
    DialogView { caller_local_cseq: 3, caller_remote_cseq: None, gateway_local_cseq: 9, gateway_remote_cseq: None, transfer: None }
}

#[test]
fn in_dialog_forwards_to_peer_with_next_cseq() {
    let (v, o) = in_dialog_step(&view(), InDialogEvent::Request {
        method: Method::Update,
        has_call_id: true,
        has_session: true,
        validation: Ok((DialogLeg::Caller, Some(4))),
    });
    assert_eq!(o, InDialogOutcome::Forward { target: DialogLeg::Gateway, cseq: 10, cleanup: false });
    assert_eq!(v.gateway_local_cseq, 10);
    assert_eq!(v.caller_remote_cseq, Some(4));
    let (_, o) = in_dialog_step(&view(), InDialogEvent::Request {
        method: Method::Bye,
        has_call_id: true,
        has_session: true,
        validation: Ok((DialogLeg::Gateway, None)),
    });
    assert_eq!(o, InDialogOutcome::Teardown { source: DialogLeg::Gateway });
    let (v, o) = in_dialog_step(&view(), InDialogEvent::Continue { method: Method::Cancel, source: DialogLeg::Gateway });
    assert_eq!(o, InDialogOutcome::Forward { target: DialogLeg::Caller, cseq: 3, cleanup: true });
    assert_eq!(v.caller_local_cseq, 3);
    let (_, o) = in_dialog_step(&view(), InDialogEvent::Request {
        method: Method::Ack,
        has_call_id: true,
        has_session: false,
        validation: Err(()),
    });
    assert_eq!(o, InDialogOutcome::Absorb);
    let (_, o) = in_dialog_step(&view(), InDialogEvent::Request {
        method: Method::Info,
        has_call_id: true,
        has_session: true,
        validation: Err(()),
    });
    assert_eq!(o, InDialogOutcome::RefuseInvalid);
    let mut transferring = view();
    transferring.transfer = Some(TransferView { local_cseq: 1, remote_cseq: None, transferee: DialogLeg::Caller });
    let (v, o) = in_dialog_step(&transferring, InDialogEvent::Continue { method: Method::Info, source: DialogLeg::Caller });
    assert_eq!(o, InDialogOutcome::Forward { target: DialogLeg::Transfer, cseq: 2, cleanup: false });
    assert_eq!(v.transfer.unwrap().local_cseq, 2);
}

#[test]
fn bye_ends_local_sessions_here() {
    let facts = ByeFacts {
        terminated: true,
        far_user: "conf_1".to_string(),
        transferee: Some(DialogLeg::Caller),
        caller_relay_port: Some(4000),
        gateway_relay_port: Some(4002),
        has_dtmf_events: true,
        has_store: false,
        control_mode: "nats".to_string(),
    };
    let a = bye_cancel_step(&facts);
    assert!(a.end_locally && a.report_local_end && a.settle && !a.persist_dtmf);
    assert_eq!(a.release_peer_of, None);
    let forwarded = ByeFacts { far_user: "1001".to_string(), ..facts };
    let a = bye_cancel_step(&forwarded);
    assert!(!a.end_locally && !a.report_local_end);
    assert_eq!(a.release_peer_of, Some(4000));
}

#[test]
fn refer_notifies_in_order() {
    let s = refer_start(DialogLeg::Caller, None, 10);
    let (s, a) = refer_step(&s, ReferEvent::Received { target_named: true });
    assert_eq!(a, ReferAction::AcceptAndTry { cseq: 60 });
    let (s2, a) = refer_step(&s, ReferEvent::Resolved { found: false });
    assert_eq!(a, ReferAction::Fail { failure: ReferFailure::NotFound, cseq: 61 });
    let _ = s2;
    let (s, a) = refer_step(&s, ReferEvent::Resolved { found: true });
    assert_eq!(a, ReferAction::AllocateRelay);
    let (_, a) = refer_step(&s, ReferEvent::Allocated { ok: true, caller_relay_port: Some(1), gateway_relay_port: Some(2) });
    assert_eq!(a, ReferAction::StartTransfer { transferee: DialogLeg::Gateway, paired_port: Some(2), notify_cseq: 60 });
    let s = refer_start(DialogLeg::Gateway, None, 0);
    let (_, a) = refer_step(&s, ReferEvent::Received { target_named: false });
    assert_eq!(a, ReferAction::AcceptAndFail { failure: ReferFailure::BadRequest, cseq: 50 });
}

fn table(parked: bool, active: bool) -> CallTableView {
    CallTableView { socket_ready: true, parked, active, relay_port: Some(30000), bridge_port_a: None, bridge_port_b: Some(2) }
}

#[test]
fn commands_by_call_standing() {
    let hangup = |cause| CallCommand { call_id: "c".to_string(), action: CommandAction::Hangup { params: HangupParams { sip_cause: cause } } };
    let (t, p) = command_step(&table(true, false), hangup(None));
    match p {
        CommandPlan::RejectParked { status, reason, release_relay, termination_reason } => {
            assert_eq!((status, reason, release_relay), (603, "Decline", true));
            assert_eq!(termination_reason, "VCI Hangup (603)");
        }
        _ => panic!("a parked hangup is refused and finalized"),
    }
    let (_, p) = command_step(&table(true, false), hangup(Some(486)));
    assert!(matches!(p, CommandPlan::RejectParked { status: 486, reason: "Busy Here", .. }));
    assert!(!t.parked);
    let (t, p) = command_step(&table(false, true), hangup(Some(486)));
    assert!(matches!(p, CommandPlan::EndSession { cause: 486, ref termination_reason } if termination_reason == "VCI Hangup (486)"));
    assert!(!t.active);
    let (_, p) = command_step(&table(false, false), hangup(None));
    assert!(matches!(p, CommandPlan::FinalizeOnly { cause: 603, .. }));
    let play = CallCommand { call_id: "c".to_string(), action: CommandAction::Play { params: PlayParams { url: "/a.wav".to_string(), loop_count: Some(2) } } };
    let (_, p) = command_step(&table(false, true), play);
    assert!(matches!(p, CommandPlan::NotParked));
    let play = CallCommand { call_id: "c".to_string(), action: CommandAction::Play { params: PlayParams { url: "/a.wav".to_string(), loop_count: Some(2) } } };
    let (_, p) = command_step(&table(true, false), play);
    assert!(matches!(p, CommandPlan::AnswerAndPlay { looped: true, .. }));
    let bridge = CallCommand { call_id: "c".to_string(), action: CommandAction::Bridge { call_id_a: "a".to_string(), call_id_b: "b".to_string() } };
    let (_, p) = command_step(&table(false, true), bridge);
    assert!(matches!(p, CommandPlan::BridgeFailed));
    let pause = CallCommand { call_id: "c".to_string(), action: CommandAction::Pause { duration_ms: 5 } };
    let (_, p) = command_step(&table(false, true), pause);
    assert!(matches!(p, CommandPlan::Instruction { .. }));
    let mut down = table(true, false);
    down.socket_ready = false;
    let (_, p) = command_step(&down, hangup(None));
    assert!(matches!(p, CommandPlan::NoSocket));
}

fn uri(text: &str, host: &str, port: Option<u16>) -> SipUri {
    SipUri { text: text.to_string(), host: host.to_string(), port }
}

fn lookup(contact: Option<ContactView>, routed: Option<SipUri>) -> RouteLookup {
    RouteLookup {
        contact,
        routed_uri: routed,
        from_uri: Some("sip:1001@example.com".to_string()),
        to_uri: None,
        contact_uri: None,
        from_tag: Some("ft".to_string()),
        cseq: Some(7),
        request_uri: uri("sip:2000@example.com", "example.com", None),
        peer: "10.0.0.1:5060".to_string(),
        gateway_call_id: "gw-call".to_string(),
        caller_tag: "vosrs-a-1".to_string(),
        gateway_tag: "vosrs-b-1".to_string(),
    }
}

fn message(with_call_id: bool) -> SipRequest {
    let mut headers = HeaderMap::new();
    if with_call_id {
        headers.push("Call-ID".to_string(), "m1".to_string());
    }
    headers.push("From".to_string(), "<sip:1001@example.com>;tag=ft".to_string());
    SipRequest { method: Method::Message, uri: "sip:2000@example.com".to_string(), headers, body: b"hi".to_vec() }
}

#[test]
fn message_routing() {
    assert!(matches!(message_route(&message(false), lookup(None, None), "192.0.2.1:5060"), MessageAction::RefuseBadRequest));
    assert!(matches!(message_route(&message(true), lookup(None, None), "192.0.2.1:5060"), MessageAction::NoRoute));
    let contact = ContactView { uri: None, received_from: "10.0.0.9:5070".to_string() };
    assert!(matches!(
        message_route(&message(true), lookup(Some(contact), Some(uri("sip:2000@gw", "gw", None))), "192.0.2.1:5060"),
        MessageAction::NoRoute
    ));
    match message_route(&message(true), lookup(None, Some(uri("sip:2000@gw.example", "gw.example", Some(5080)))), "192.0.2.1:5060") {
        MessageAction::Relay { target, caller, gateway, bytes } => {
            assert_eq!(target, "gw.example:5080");
            assert_eq!(caller.call_id, "m1");
            assert_eq!(caller.local_uri, "sip:2000@example.com");
            assert_eq!(caller.remote_tag.as_deref(), Some("ft"));
            assert_eq!(gateway.local_cseq, 7);
            assert_eq!(gateway.local_uri, "sip:1001@example.com");
            let text = String::from_utf8(bytes).unwrap();
            assert!(text.starts_with("MESSAGE sip:2000@gw.example SIP/2.0\r\n"));
            assert!(text.contains("Call-ID: gw-call\r\n"));
            assert!(text.ends_with("\r\n\r\nhi"));
        }
        _ => panic!("expected a relay"),
    }
    let contact = ContactView { uri: Some(uri("sip:2000@10.0.0.9", "10.0.0.9", None)), received_from: "10.0.0.9:5070".to_string() };
    assert!(matches!(
        message_route(&message(true), lookup(Some(contact), None), "192.0.2.1:5060"),
        MessageAction::Relay { ref target, .. } if target == "10.0.0.9:5070"
    ));
}

#[test]
fn refer_at_the_cseq_edge() {
    let s = refer_start(DialogLeg::Caller, None, u32::MAX - 50);
    let (s, a) = refer_step(&s, ReferEvent::Received { target_named: true });
    assert_eq!(a, ReferAction::AcceptAndTry { cseq: u32::MAX });
    let (_, a) = refer_step(&s, ReferEvent::Resolved { found: true });
    assert_eq!(a, ReferAction::AllocateRelay);
}

#[test]
fn ivr_setup_refusals_and_answer() {
    let (_, a) = ivr_setup_step(IvrSetupStage::Allocate, IvrSetupEvent::Allocated { ok: false });
    assert_eq!(a, IvrSetupAction::Refuse { failure: IvrSetupFailure::MediaAllocation, release_relay: false });
    assert_eq!(IvrSetupFailure::MediaAllocation.status(), 500);
    assert_eq!(IvrSetupFailure::SdpAddress.reason(), "Bad Request - Invalid SDP Address");
    let (s, a) = ivr_setup_step(IvrSetupStage::Allocate, IvrSetupEvent::Allocated { ok: true });
    assert_eq!(a, IvrSetupAction::ReadCallerSdp);
    let (_, a) = ivr_setup_step(s, IvrSetupEvent::SdpRead { parsed: false, address_ok: false });
    assert_eq!(a, IvrSetupAction::Refuse { failure: IvrSetupFailure::SdpParsing, release_relay: true });
    assert_eq!(IvrSetupFailure::SdpParsing.status(), 400);
    let (s, _) = ivr_setup_step(s, IvrSetupEvent::SdpRead { parsed: true, address_ok: true });
    let (_, a) = ivr_setup_step(s, IvrSetupEvent::TargetSet { ok: false });
    assert_eq!(a, IvrSetupAction::Refuse { failure: IvrSetupFailure::MediaSetup, release_relay: true });
    let (s, a) = ivr_setup_step(s, IvrSetupEvent::TargetSet { ok: true });
    assert_eq!(a, IvrSetupAction::FindMenu);
    let (_, a) = ivr_setup_step(s, IvrSetupEvent::MenuLooked { found: false, can_run: true });
    assert_eq!(a, IvrSetupAction::Answer { run_menu: false });
    let (_, a) = ivr_setup_step(s, IvrSetupEvent::MenuLooked { found: true, can_run: true });
    assert_eq!(a, IvrSetupAction::Answer { run_menu: true });
}
