//! In-dialog request decisions: how a request enters its session and what
//! it does there, which leg it is passed on to and with which CSeq, which
//! BYEs end a session the edge serves itself, when call events are
//! reported, and which relay a mid-dialog offer is rewritten for.
use vstd::prelude::*;
use crate::refer::DialogLeg;
use crate::sip::Method;
use crate::subscribe::{dialog_end_notifies, dialog_end_ok, DialogEndFacts};
use crate::text::{chars_of, exec_starts_with, starts_with, str_eq};

verus! {

/// Whether the far end of a call is a session the edge plays itself
/// (conference rooms and the playback, gather and stream sessions), so that
/// a BYE ends it locally instead of being forwarded.
pub open spec fn local_session_user_spec(user: Seq<char>) -> bool {
    starts_with(user, "conf_"@) || starts_with(user, "room_"@) || user == "vosrs-playback"@
        || user == "vosrs-gather"@ || user == "vosrs-stream"@
}

pub fn is_local_session_user(user: &str) -> (r: bool)
    ensures
        r == local_session_user_spec(user@),
{
    let v = chars_of(user);
    let conf = chars_of("conf_");
    let room = chars_of("room_");
    exec_starts_with(&v, &conf) || exec_starts_with(&v, &room) || str_eq(user, "vosrs-playback")
        || str_eq(user, "vosrs-gather") || str_eq(user, "vosrs-stream")
}

/// Whether call events are reported to the control application: in the
/// `http` and `nats` control modes.
pub fn reports_call_events(control_mode: &str) -> (r: bool)
    ensures
        r == (control_mode@ == "http"@ || control_mode@ == "nats"@),
{
    str_eq(control_mode, "http") || str_eq(control_mode, "nats")
}

/// The relay a mid-dialog offer is rewritten for: none for a bridged call
/// or a method other than INVITE and UPDATE; otherwise the gateway leg's
/// relay for an offer from the caller, the caller leg's relay for one from
/// elsewhere.
pub fn renegotiation_relay(method: &Method, is_bridged: bool, from_leg: Option<DialogLeg>) -> (r: Option<
    DialogLeg,
>)
    ensures
        r == (if is_bridged || !(*method is Invite || *method is Update) {
            None
        } else if from_leg == Some(DialogLeg::Caller) {
            Some(DialogLeg::Gateway)
        } else {
            Some(DialogLeg::Caller)
        }),
{
    if is_bridged {
        return None;
    }
    match method {
        Method::Invite | Method::Update => {
            if from_leg == Some(DialogLeg::Caller) {
                Some(DialogLeg::Gateway)
            } else {
                Some(DialogLeg::Caller)
            }
        },
        _ => None,
    }
}

/// The first decision on an in-dialog request, before the dialog checks:
/// an ACK that cannot be matched is absorbed; a request without a Call-ID,
/// or whose Call-ID names no session, is refused; the rest is checked
/// against its session.
#[derive(PartialEq, Eq, Structural, Debug, Clone, Copy)]
pub enum InDialogEntry {
    Absorb,
    MissingCallId,
    UnknownCall,
    Validate,
}

pub fn in_dialog_entry(method: &Method, has_call_id: bool, has_session: bool) -> (r: InDialogEntry)
    ensures
        r == (if !has_call_id || !has_session {
            if *method is Ack {
                InDialogEntry::Absorb
            } else if !has_call_id {
                InDialogEntry::MissingCallId
            } else {
                InDialogEntry::UnknownCall
            }
        } else {
            InDialogEntry::Validate
        }),
{
    let ack = match method {
        Method::Ack => true,
        _ => false,
    };
    if !has_call_id || !has_session {
        if ack {
            InDialogEntry::Absorb
        } else if !has_call_id {
            InDialogEntry::MissingCallId
        } else {
            InDialogEntry::UnknownCall
        }
    } else {
        InDialogEntry::Validate
    }
}

/// What a checked in-dialog request does.  A B2BUA ends an ACK on the leg
/// it arrives on; BYE and CANCEL end the session here before they are
/// passed on; INFO is looked at for DTMF and passed on; PRACK is answered
/// here; REFER is carried out here; everything else is passed on.
#[derive(PartialEq, Eq, Structural, Debug, Clone, Copy)]
pub enum InDialogAction {
    Absorb,
    Teardown,
    Info,
    AnswerPrack,
    Transfer,
    Forward,
}

pub fn in_dialog_action(method: &Method) -> (r: InDialogAction)
    ensures
        r == match *method {
            Method::Ack => InDialogAction::Absorb,
            Method::Bye | Method::Cancel => InDialogAction::Teardown,
            Method::Info => InDialogAction::Info,
            Method::Prack => InDialogAction::AnswerPrack,
            Method::Refer => InDialogAction::Transfer,
            _ => InDialogAction::Forward,
        },
{
    match method {
        Method::Ack => InDialogAction::Absorb,
        Method::Bye | Method::Cancel => InDialogAction::Teardown,
        Method::Info => InDialogAction::Info,
        Method::Prack => InDialogAction::AnswerPrack,
        Method::Refer => InDialogAction::Transfer,
        _ => InDialogAction::Forward,
    }
}

pub open spec fn forward_leg_spec(source: DialogLeg, transferee: Option<DialogLeg>) -> DialogLeg {
    match source {
        DialogLeg::Caller => if transferee == Some(DialogLeg::Caller) {
            DialogLeg::Transfer
        } else {
            DialogLeg::Gateway
        },
        DialogLeg::Gateway => if transferee == Some(DialogLeg::Gateway) {
            DialogLeg::Transfer
        } else {
            DialogLeg::Caller
        },
        DialogLeg::Transfer => match transferee {
            Some(l) => l,
            None => DialogLeg::Caller,
        },
    }
}

/// The leg a request is passed on to: the other leg of the call, except
/// that the leg being transferred now talks to the transfer target, and a
/// request from the transfer target goes to the leg it was transferred to
/// (the caller when unknown).  `transferee` is the transferred leg of a
/// transfer in progress.
pub fn forward_leg(source: DialogLeg, transferee: Option<DialogLeg>) -> (r: DialogLeg)
    ensures
        r == forward_leg_spec(source, transferee),
{
    match source {
        DialogLeg::Caller => if transferee == Some(DialogLeg::Caller) {
            DialogLeg::Transfer
        } else {
            DialogLeg::Gateway
        },
        DialogLeg::Gateway => if transferee == Some(DialogLeg::Gateway) {
            DialogLeg::Transfer
        } else {
            DialogLeg::Caller
        },
        DialogLeg::Transfer => match transferee {
            Some(l) => l,
            None => DialogLeg::Caller,
        },
    }
}

/// A request is never passed back to the leg it came from, as long as the
/// transferred leg is the caller or the gateway leg.
pub proof fn lemma_forward_leg_is_another_leg(source: DialogLeg, transferee: Option<DialogLeg>)
    requires
        transferee != Some(DialogLeg::Transfer),
    ensures
        forward_leg_spec(source, transferee) != source,
{
}

/// While the caller or the gateway leg is being transferred, a request from
/// that leg goes to the transfer target: to the transfer leg, with that
/// leg's next CSeq (a CANCEL keeps the current one), and only the transfer
/// leg's local CSeq changes.
pub proof fn lemma_transferee_requests_go_to_transfer_leg(d: DialogView, method: Method, l: DialogLeg)
    requires
        l != DialogLeg::Transfer,
        d.transfer matches Some(t) && t.transferee == l,
    ensures
        forward_leg_spec(l, Some(l)) == DialogLeg::Transfer,
        ({
            let t = d.transfer.unwrap();
            let c: u32 = if method is Cancel {
                t.local_cseq
            } else if t.local_cseq < u32::MAX {
                (t.local_cseq + 1) as u32
            } else {
                u32::MAX
            };
            in_dialog_step_spec(d, InDialogEvent::Continue { method, source: l }) == (
                DialogView { transfer: Some(TransferView { local_cseq: c, ..t }), ..d },
                InDialogOutcome::Forward { target: DialogLeg::Transfer, cseq: c, cleanup: method is Bye || method is Cancel },
            )
        }),
{
}

/// Without a transfer, or for the leg not being transferred, a request from
/// the caller goes to the gateway leg and one from the gateway leg to the
/// caller.
pub proof fn lemma_untransferred_leg_talks_to_peer(l: DialogLeg, transferee: Option<DialogLeg>)
    requires
        l != DialogLeg::Transfer,
        transferee != Some(l),
    ensures
        forward_leg_spec(l, transferee) == (if l == DialogLeg::Caller {
            DialogLeg::Gateway
        } else {
            DialogLeg::Caller
        }),
{
}

/// A request from the transfer target goes to the leg that was transferred
/// to it, with that leg's next CSeq (a CANCEL keeps the current one).
pub proof fn lemma_transfer_leg_talks_to_transferee(d: DialogView, method: Method)
    requires
        d.transfer matches Some(t) && t.transferee != DialogLeg::Transfer,
    ensures
        ({
            let l = d.transfer.unwrap().transferee;
            let prev: u32 = if l == DialogLeg::Caller {
                d.caller_local_cseq
            } else {
                d.gateway_local_cseq
            };
            let c: u32 = if method is Cancel {
                prev
            } else if prev < u32::MAX {
                (prev + 1) as u32
            } else {
                u32::MAX
            };
            in_dialog_step_spec(d, InDialogEvent::Continue { method, source: DialogLeg::Transfer }).1
                == InDialogOutcome::Forward { target: l, cseq: c, cleanup: method is Bye || method is Cancel }
        }),
{
}

/// The CSeq the passed-on request carries on the target leg: the leg's next
/// one, except that a CANCEL repeats the CSeq of the request it cancels.
pub fn forward_cseq(method: &Method, local_cseq: u32) -> (r: u32)
    ensures
        r == (if *method is Cancel {
            local_cseq as int
        } else if local_cseq < u32::MAX {
            local_cseq + 1
        } else {
            u32::MAX as int
        }),
{
    match method {
        Method::Cancel => local_cseq,
        _ => local_cseq.saturating_add(1),
    }
}

// ---------------------------------------------------------------------------
// The in-dialog request as a step function
// ---------------------------------------------------------------------------

/// What the edge knows of a session's legs: the CSeq it last used and the
/// one it last received on each, and the transfer in progress (its leg's
/// CSeqs and the leg being transferred).
#[derive(PartialEq, Eq, Structural, Debug, Clone, Copy)]
pub struct DialogView {
    pub caller_local_cseq: u32,
    pub caller_remote_cseq: Option<u32>,
    pub gateway_local_cseq: u32,
    pub gateway_remote_cseq: Option<u32>,
    /// Present while a transfer leg exists.
    pub transfer: Option<TransferView>,
}

#[derive(PartialEq, Eq, Structural, Debug, Clone, Copy)]
pub struct TransferView {
    pub local_cseq: u32,
    pub remote_cseq: Option<u32>,
    pub transferee: DialogLeg,
}

/// An in-dialog request as the step sees it.
pub enum InDialogEvent {
    /// A request: whether it has a Call-ID, whether that names a session,
    /// and, for one that does, how the session's dialog check went (the
    /// leg it came on and the CSeq to remember, or a refusal).
    Request { method: Method, has_call_id: bool, has_session: bool, validation: Result<(DialogLeg, Option<u32>), ()> },
    /// The local handling of a BYE, CANCEL or INFO is done; it now goes on.
    Continue { method: Method, source: DialogLeg },
}

/// What the edge does with an in-dialog request.
#[derive(PartialEq, Eq, Structural, Debug, Clone, Copy)]
pub enum InDialogOutcome {
    /// Nothing is sent (an ACK).
    Absorb,
    RefuseMissingCallId,
    RefuseUnknownCall,
    /// The dialog check refused it.
    RefuseInvalid,
    /// BYE or CANCEL: end the session here, then continue.
    Teardown { source: DialogLeg },
    /// INFO: look for DTMF, then continue.
    InspectInfo { source: DialogLeg },
    AnswerPrack,
    /// REFER: carry out the transfer.
    Transfer { source: DialogLeg },
    /// Pass it on to `target` with `cseq`; after a BYE or CANCEL (`cleanup`)
    /// the session ends as `forward_cleanup` says.
    Forward { target: DialogLeg, cseq: u32, cleanup: bool },
}

pub open spec fn with_remote_cseq(d: DialogView, leg: DialogLeg, cseq: Option<u32>) -> DialogView {
    match cseq {
        None => d,
        Some(c) => match leg {
            DialogLeg::Caller => DialogView { caller_remote_cseq: Some(c), ..d },
            DialogLeg::Gateway => DialogView { gateway_remote_cseq: Some(c), ..d },
            DialogLeg::Transfer => match d.transfer {
                Some(t) => DialogView { transfer: Some(TransferView { remote_cseq: Some(c), ..t }), ..d },
                None => d,
            },
        },
    }
}

pub open spec fn next_cseq_spec(m: Method, c: u32) -> u32 {
    if m is Cancel {
        c
    } else if c < u32::MAX {
        (c + 1) as u32
    } else {
        u32::MAX
    }
}

pub open spec fn transferee_of(d: DialogView) -> Option<DialogLeg> {
    match d.transfer {
        Some(t) => Some(t.transferee),
        None => None,
    }
}

/// Passing a request on: the target leg (`forward_leg_spec`) gets its next
/// CSeq (a CANCEL keeps the current one); a transfer leg that does not
/// exist makes the call unknown.
pub open spec fn forward_spec(d: DialogView, m: Method, source: DialogLeg) -> (DialogView, InDialogOutcome) {
    let target = forward_leg_spec(source, transferee_of(d));
    let cleanup = m is Bye || m is Cancel;
    match target {
        DialogLeg::Caller => {
            let c = next_cseq_spec(m, d.caller_local_cseq);
            (DialogView { caller_local_cseq: c, ..d }, InDialogOutcome::Forward { target, cseq: c, cleanup })
        },
        DialogLeg::Gateway => {
            let c = next_cseq_spec(m, d.gateway_local_cseq);
            (DialogView { gateway_local_cseq: c, ..d }, InDialogOutcome::Forward { target, cseq: c, cleanup })
        },
        DialogLeg::Transfer => match d.transfer {
            Some(t) => {
                let c = next_cseq_spec(m, t.local_cseq);
                (
                    DialogView { transfer: Some(TransferView { local_cseq: c, ..t }), ..d },
                    InDialogOutcome::Forward { target, cseq: c, cleanup },
                )
            },
            None => (d, InDialogOutcome::RefuseUnknownCall),
        },
    }
}

/// One step of an in-dialog request: the entry checks, the dialog check
/// (remembering the CSeq received on the source leg), the local handling
/// by method, and passing it on to the peer leg.
pub open spec fn in_dialog_step_spec(d: DialogView, e: InDialogEvent) -> (DialogView, InDialogOutcome) {
    match e {
        InDialogEvent::Request { method, has_call_id, has_session, validation } => {
            if !has_call_id || !has_session {
                (d, if method is Ack {
                    InDialogOutcome::Absorb
                } else if !has_call_id {
                    InDialogOutcome::RefuseMissingCallId
                } else {
                    InDialogOutcome::RefuseUnknownCall
                })
            } else {
                match validation {
                    Err(_) => (d, InDialogOutcome::RefuseInvalid),
                    Ok((source, cseq)) => {
                        let d2 = with_remote_cseq(d, source, cseq);
                        match method {
                            Method::Ack => (d2, InDialogOutcome::Absorb),
                            Method::Bye | Method::Cancel => (d2, InDialogOutcome::Teardown { source }),
                            Method::Info => (d2, InDialogOutcome::InspectInfo { source }),
                            Method::Prack => (d2, InDialogOutcome::AnswerPrack),
                            Method::Refer => (d2, InDialogOutcome::Transfer { source }),
                            _ => forward_spec(d2, method, source),
                        }
                    },
                }
            }
        },
        InDialogEvent::Continue { method, source } => forward_spec(d, method, source),
    }
}

fn remember_remote_cseq(d: DialogView, leg: DialogLeg, cseq: Option<u32>) -> (r: DialogView)
    ensures
        r == with_remote_cseq(d, leg, cseq),
{
    match cseq {
        None => d,
        Some(c) => match leg {
            DialogLeg::Caller => DialogView { caller_remote_cseq: Some(c), ..d },
            DialogLeg::Gateway => DialogView { gateway_remote_cseq: Some(c), ..d },
            DialogLeg::Transfer => match d.transfer {
                Some(t) => DialogView { transfer: Some(TransferView { remote_cseq: Some(c), ..t }), ..d },
                None => d,
            },
        },
    }
}

fn forward_on(d: DialogView, method: &Method, source: DialogLeg) -> (r: (DialogView, InDialogOutcome))
    ensures
        r == forward_spec(d, *method, source),
{
    let transferee = match d.transfer {
        Some(t) => Some(t.transferee),
        None => None,
    };
    let target = forward_leg(source, transferee);
    let cleanup = match method {
        Method::Bye | Method::Cancel => true,
        _ => false,
    };
    match target {
        DialogLeg::Caller => {
            let c = forward_cseq(method, d.caller_local_cseq);
            (DialogView { caller_local_cseq: c, ..d }, InDialogOutcome::Forward { target, cseq: c, cleanup })
        },
        DialogLeg::Gateway => {
            let c = forward_cseq(method, d.gateway_local_cseq);
            (DialogView { gateway_local_cseq: c, ..d }, InDialogOutcome::Forward { target, cseq: c, cleanup })
        },
        DialogLeg::Transfer => match d.transfer {
            Some(t) => {
                let c = forward_cseq(method, t.local_cseq);
                (
                    DialogView { transfer: Some(TransferView { local_cseq: c, ..t }), ..d },
                    InDialogOutcome::Forward { target, cseq: c, cleanup },
                )
            },
            None => (d, InDialogOutcome::RefuseUnknownCall),
        },
    }
}

/// One step of an in-dialog request.
pub fn in_dialog_step(dialog: &DialogView, req: InDialogEvent) -> (r: (DialogView, InDialogOutcome))
    ensures
        r == in_dialog_step_spec(*dialog, req),
{
    let d = *dialog;
    match req {
        InDialogEvent::Request { method, has_call_id, has_session, validation } => {
            if !has_call_id || !has_session {
                let entry = in_dialog_entry(&method, has_call_id, has_session);
                let out = match entry {
                    InDialogEntry::Absorb => InDialogOutcome::Absorb,
                    InDialogEntry::MissingCallId => InDialogOutcome::RefuseMissingCallId,
                    _ => InDialogOutcome::RefuseUnknownCall,
                };
                (d, out)
            } else {
                match validation {
                    Err(_) => (d, InDialogOutcome::RefuseInvalid),
                    Ok((source, cseq)) => {
                        let d2 = remember_remote_cseq(d, source, cseq);
                        match in_dialog_action(&method) {
                            InDialogAction::Absorb => (d2, InDialogOutcome::Absorb),
                            InDialogAction::Teardown => (d2, InDialogOutcome::Teardown { source }),
                            InDialogAction::Info => (d2, InDialogOutcome::InspectInfo { source }),
                            InDialogAction::AnswerPrack => (d2, InDialogOutcome::AnswerPrack),
                            InDialogAction::Transfer => (d2, InDialogOutcome::Transfer { source }),
                            InDialogAction::Forward => forward_on(d2, &method, source),
                        }
                    },
                }
            }
        },
        InDialogEvent::Continue { method, source } => forward_on(d, &method, source),
    }
}

// ---------------------------------------------------------------------------
// Ending a session on BYE or CANCEL
// ---------------------------------------------------------------------------

/// What is known when a BYE or CANCEL ends a session.
pub struct ByeFacts {
    /// The call manager ended the call (it may not know it).
    pub terminated: bool,
    /// The user part of the gateway leg's remote target.
    pub far_user: String,
    /// The leg a transfer in progress moved, if any.
    pub transferee: Option<DialogLeg>,
    pub caller_relay_port: Option<u16>,
    pub gateway_relay_port: Option<u16>,
    /// DTMF audit events were collected, and there is a store to keep them.
    pub has_dtmf_events: bool,
    pub has_store: bool,
    pub control_mode: String,
}

/// What ending the session does before the request goes on.  A `200 OK`
/// always answers the sender.
#[derive(PartialEq, Eq, Structural, Debug, Clone, Copy)]
pub struct ByeAction {
    /// Keep the DTMF audit events (else drop them).
    pub persist_dtmf: bool,
    /// Count the gateway down and settle the bill.
    pub settle: bool,
    /// The edge itself was the far end: end here, nothing goes on.
    pub end_locally: bool,
    /// Report the end to the control webhook (local end only; a forwarded
    /// end is reported by the cleanup after forwarding).
    pub report_local_end: bool,
    /// Stop relaying to the peer of this port (the transferred leg's relay).
    pub release_peer_of: Option<u16>,
}

pub open spec fn bye_step_spec(f: ByeFacts) -> ByeAction {
    let local = f.terminated && local_session_user_spec(f.far_user@);
    ByeAction {
        persist_dtmf: f.has_dtmf_events && f.has_store,
        settle: f.terminated,
        end_locally: local,
        report_local_end: local && (f.control_mode@ == "http"@ || f.control_mode@ == "nats"@),
        release_peer_of: if f.terminated && !local {
            match f.transferee {
                Some(DialogLeg::Caller) => f.caller_relay_port,
                Some(DialogLeg::Gateway) => f.gateway_relay_port,
                _ => None,
            }
        } else {
            None
        },
    }
}

/// Ending a session on BYE or CANCEL.
pub fn bye_cancel_step(facts: &ByeFacts) -> (r: ByeAction)
    ensures
        r == bye_step_spec(*facts),
{
    let local = facts.terminated && is_local_session_user(facts.far_user.as_str());
    let report = local && reports_call_events(facts.control_mode.as_str());
    let release = if facts.terminated && !local {
        match facts.transferee {
            Some(DialogLeg::Caller) => facts.caller_relay_port,
            Some(DialogLeg::Gateway) => facts.gateway_relay_port,
            _ => None,
        }
    } else {
        None
    };
    ByeAction {
        persist_dtmf: facts.has_dtmf_events && facts.has_store,
        settle: facts.terminated,
        end_locally: local,
        report_local_end: report,
        release_peer_of: release,
    }
}

/// What follows a BYE or CANCEL that was passed on: the session is torn
/// down (the user's and tenant's call counts go down), the end is reported
/// to the control webhook in `http` and `nats` mode, and the busy-lamp
/// watchers of the call's addresses are told the dialog ended.
pub struct ForwardCleanup {
    pub report_finished: bool,
    /// The NOTIFYs to send: an address and the bytes of each.
    pub notifies: Vec<(String, Vec<u8>)>,
}

pub fn forward_cleanup(facts: &DialogEndFacts, control_mode: &str, advertised_addr: &str) -> (r: ForwardCleanup)
    requires
        forall|i: int| 0 <= i < facts.caller_watchers@.len() ==> (#[trigger] facts.caller_watchers@[i]).subscription.last_cseq < u32::MAX,
        forall|i: int| 0 <= i < facts.callee_watchers@.len() ==> (#[trigger] facts.callee_watchers@[i]).subscription.last_cseq < u32::MAX,
    ensures
        r.report_finished == (control_mode@ == "http"@ || control_mode@ == "nats"@),
        dialog_end_ok(r.notifies@, *facts, advertised_addr@),
{
    ForwardCleanup {
        report_finished: reports_call_events(control_mode),
        notifies: dialog_end_notifies(facts, advertised_addr),
    }
}

} // verus!
