//! Blind transfer by REFER (RFC 3515): the progress NOTIFYs sent back to the
//! referrer, the `Replaces` value carried in the Refer-To URI, the leg being
//! transferred and the SDP offered to the transfer target.
use vstd::prelude::*;
use vstd::utf8::encode_utf8;
use crate::handlers::{percent_decode, percent_from};
use crate::outbound::{build_notify_sipfrag_with_state, notify_sipfrag_text};
use crate::text::{chars_of, dec, exec_find_char, exec_find_seq, find_char, find_seq, push_dec, push_str, string_from, string_of, vec_range};

verus! {

/// The legs of a B2BUA session.
#[derive(PartialEq, Eq, Structural, Debug, Clone, Copy)]
pub enum DialogLeg {
    Caller,
    Gateway,
    Transfer,
}

/// The leg a REFER received on `source` transfers: the other leg of the
/// call; for a REFER on a transfer leg, the leg that transfer was for
/// (the caller when unknown).
pub fn transferee_leg(source: DialogLeg, transfer_for: Option<DialogLeg>) -> (r: DialogLeg)
    ensures
        r == match source {
            DialogLeg::Caller => DialogLeg::Gateway,
            DialogLeg::Gateway => DialogLeg::Caller,
            DialogLeg::Transfer => match transfer_for {
                Some(l) => l,
                None => DialogLeg::Caller,
            },
        },
{
    match source {
        DialogLeg::Caller => DialogLeg::Gateway,
        DialogLeg::Gateway => DialogLeg::Caller,
        DialogLeg::Transfer => match transfer_for {
            Some(l) => l,
            None => DialogLeg::Caller,
        },
    }
}

/// Why a REFER could not be carried out.
#[derive(PartialEq, Eq, Structural, Debug, Clone, Copy)]
pub enum ReferFailure {
    /// Refer-To missing or not a URI.
    BadRequest,
    /// No registration or route for the target.
    NotFound,
    /// No media port for the target leg.
    Unavailable,
}

pub open spec fn failure_status_line(f: ReferFailure) -> Seq<char> {
    match f {
        ReferFailure::BadRequest => "SIP/2.0 400 Bad Request\r\n"@,
        ReferFailure::NotFound => "SIP/2.0 404 Not Found\r\n"@,
        ReferFailure::Unavailable => "SIP/2.0 503 Service Unavailable\r\n"@,
    }
}

/// CSeq of a failure NOTIFY: the first NOTIFY of the subscription (50 past
/// the dialog's local CSeq) when the REFER is refused outright, the one
/// after the `100 Trying` NOTIFY otherwise.
pub open spec fn failure_cseq(f: ReferFailure, local_cseq: u32) -> u32 {
    if f is BadRequest {
        (local_cseq + 50) as u32
    } else {
        (local_cseq + 51) as u32
    }
}

/// The NOTIFY ending the implicit subscription with the failure's status.
pub fn refer_failure_notify(
    call_id: &str,
    refer_from: &str,
    refer_to: &str,
    local_cseq: u32,
    advertised_addr: &str,
    failure: ReferFailure,
) -> (r: Vec<u8>)
    requires
        local_cseq + (if failure is BadRequest { 50int } else { 51int }) <= u32::MAX,
    ensures
        r@ == encode_utf8(
            notify_sipfrag_text(
                call_id@,
                refer_from@,
                refer_to@,
                failure_cseq(failure, local_cseq),
                advertised_addr@,
                failure_status_line(failure),
                "terminated;reason=noresource"@,
            ),
        ),
{
    let (cseq, body) = match failure {
        ReferFailure::BadRequest => (local_cseq + 50, "SIP/2.0 400 Bad Request\r\n"),
        ReferFailure::NotFound => (local_cseq + 51, "SIP/2.0 404 Not Found\r\n"),
        ReferFailure::Unavailable => (local_cseq + 51, "SIP/2.0 503 Service Unavailable\r\n"),
    };
    build_notify_sipfrag_with_state(
        call_id,
        refer_from,
        refer_to,
        cseq,
        advertised_addr,
        body,
        "terminated;reason=noresource",
    )
}

/// The first NOTIFY of an accepted REFER: `100 Trying`, 50 past the
/// dialog's local CSeq, subscription active.
pub fn refer_trying_notify(
    call_id: &str,
    refer_from: &str,
    refer_to: &str,
    local_cseq: u32,
    advertised_addr: &str,
) -> (r: Vec<u8>)
    requires
        local_cseq + 50 <= u32::MAX,
    ensures
        r@ == encode_utf8(
            notify_sipfrag_text(
                call_id@,
                refer_from@,
                refer_to@,
                (local_cseq + 50) as u32,
                advertised_addr@,
                "SIP/2.0 100 Trying\r\n"@,
                "active;expires=60"@,
            ),
        ),
{
    crate::outbound::build_notify_sipfrag(
        call_id,
        refer_from,
        refer_to,
        local_cseq + 50,
        advertised_addr,
        "SIP/2.0 100 Trying\r\n",
    )
}

/// The escaped `Replaces` value of a Refer-To URI: after `?Replaces=` (or,
/// without one, `&Replaces=`) up to the next `>` or the end.
pub open spec fn replaces_raw(refer_to: Seq<char>) -> Option<Seq<char>> {
    let q = find_seq(refer_to, "?Replaces="@, 0);
    let a = find_seq(refer_to, "&Replaces="@, 0);
    let start = if q >= 0 {
        q + 10
    } else if a >= 0 {
        a + 10
    } else {
        -1
    };
    if start < 0 {
        None
    } else {
        let e = find_char(refer_to, '>', start, refer_to.len() as int);
        let end = if e < 0 {
            refer_to.len() as int
        } else {
            e
        };
        Some(refer_to.subrange(start, end))
    }
}

/// The `Replaces` header value an attended transfer asks for, decoded.
pub fn refer_replaces(refer_to: Option<&str>) -> (r: Option<String>)
    ensures
        match refer_to {
            None => r is None,
            Some(t) => match replaces_raw(t@) {
                Some(raw) => r matches Some(x) && x@ == percent_from(raw, 0),
                None => r is None,
            },
        },
{
    let t = match refer_to {
        Some(t) => t,
        None => {
            return None;
        },
    };
    let v = chars_of(t);
    let q = chars_of("?Replaces=");
    let a = chars_of("&Replaces=");
    proof {
        reveal_strlit("?Replaces=");
        reveal_strlit("&Replaces=");
        crate::text::lemma_find_seq_range(v@, q@, 0);
        crate::text::lemma_find_seq_range(v@, a@, 0);
    }
    assert(q@.len() == 10 && a@.len() == 10);
    let start = match exec_find_seq(&v, &q, 0) {
        Some(i) => {
            assert(crate::text::occurs_at(v@, q@, i as int));
            let n = v.len();
            assert(i + 10 <= n);
            i + 10
        },
        None => match exec_find_seq(&v, &a, 0) {
            Some(i) => {
                assert(crate::text::occurs_at(v@, a@, i as int));
                let n = v.len();
                assert(i + 10 <= n);
                i + 10
            },
            None => {
                return None;
            },
        },
    };
    proof {
        crate::text::lemma_find_char_range(v@, '>', start as int, v@.len() as int);
    }
    let end = match exec_find_char(&v, '>', start, v.len()) {
        Some(e) => e,
        None => v.len(),
    };
    let raw = string_of(&vec_range(&v, start, end));
    Some(percent_decode(raw.as_str()))
}

/// The SDP offered to a transfer target: G.711 µ-law and A-law plus
/// telephone events on the target leg's relay port.
pub open spec fn transfer_target_offer(addr: Seq<char>, port: u16) -> Seq<char> {
    "v=0\r\no=- 0 0 IN IP4 "@ + addr + "\r\ns=-\r\nc=IN IP4 "@ + addr + "\r\nt=0 0\r\nm=audio "@ + dec(
        port as nat,
    )
        + " RTP/AVP 0 8 101\r\na=rtpmap:0 PCMU/8000\r\na=rtpmap:8 PCMA/8000\r\na=rtpmap:101 telephone-event/8000\r\na=fmtp:101 0-16\r\n"@
}

pub fn transfer_target_sdp(advertised_addr: &str, port: u16) -> (r: String)
    ensures
        r@ == transfer_target_offer(advertised_addr@, port),
{
    let mut out = string_from("v=0\r\no=- 0 0 IN IP4 ");
    push_str(&mut out, advertised_addr);
    push_str(&mut out, "\r\ns=-\r\nc=IN IP4 ");
    push_str(&mut out, advertised_addr);
    push_str(&mut out, "\r\nt=0 0\r\nm=audio ");
    push_dec(&mut out, port as u64);
    push_str(
        &mut out,
        " RTP/AVP 0 8 101\r\na=rtpmap:0 PCMU/8000\r\na=rtpmap:8 PCMA/8000\r\na=rtpmap:101 telephone-event/8000\r\na=fmtp:101 0-16\r\n",
    );
    out
}

// ---------------------------------------------------------------------------
// The REFER as a step function
// ---------------------------------------------------------------------------

#[derive(PartialEq, Eq, Structural, Debug, Clone, Copy)]
pub enum ReferStage {
    Received,
    Resolving,
    Allocating,
    Done,
}

/// A REFER being carried out: the leg it came on, the leg a transfer in
/// progress was for, and the CSeq of the subscription's first NOTIFY (50
/// past the caller leg's local CSeq).
#[derive(PartialEq, Eq, Structural, Debug, Clone, Copy)]
pub struct ReferState {
    pub stage: ReferStage,
    pub source: DialogLeg,
    pub transfer_for: Option<DialogLeg>,
    pub notify_cseq: u32,
}

/// The answer to what the REFER asked last.
#[derive(PartialEq, Eq, Structural, Debug, Clone, Copy)]
pub enum ReferEvent {
    /// Whether the Refer-To header names a URI.
    Received { target_named: bool },
    /// Whether the target was found (a registered contact or a route).
    Resolved { found: bool },
    /// Whether a relay port was allocated for the target, and the relay
    /// ports of the two legs.
    Allocated { ok: bool, caller_relay_port: Option<u16>, gateway_relay_port: Option<u16> },
}

/// What the REFER does next.  Every REFER is answered `202 Accepted` first.
#[derive(PartialEq, Eq, Structural, Debug, Clone, Copy)]
pub enum ReferAction {
    /// `202` and the `100 Trying` NOTIFY at `cseq`; the target is resolved next.
    AcceptAndTry { cseq: u32 },
    /// `202` and a NOTIFY ending the subscription with the failure.
    AcceptAndFail { failure: ReferFailure, cseq: u32 },
    /// A NOTIFY ending the subscription with the failure.
    Fail { failure: ReferFailure, cseq: u32 },
    AllocateRelay,
    /// The transfer INVITE goes out: the transferred leg, the relay port
    /// paired with the target's, and the subscription's NOTIFY CSeq.
    StartTransfer { transferee: DialogLeg, paired_port: Option<u16>, notify_cseq: u32 },
    /// A transfer of a transfer leg: nothing more is sent.
    Stop,
    Ignore,
}

/// The state a REFER starts in.
pub fn refer_start(source: DialogLeg, transfer_for: Option<DialogLeg>, caller_local_cseq: u32) -> (r: ReferState)
    requires
        caller_local_cseq + 50 <= u32::MAX,
    ensures
        r == (ReferState {
            stage: ReferStage::Received,
            source,
            transfer_for,
            notify_cseq: (caller_local_cseq + 50) as u32,
        }),
{
    ReferState { stage: ReferStage::Received, source, transfer_for, notify_cseq: caller_local_cseq + 50 }
}

pub open spec fn refer_transferee(s: ReferState) -> DialogLeg {
    match s.source {
        DialogLeg::Caller => DialogLeg::Gateway,
        DialogLeg::Gateway => DialogLeg::Caller,
        DialogLeg::Transfer => match s.transfer_for {
            Some(l) => l,
            None => DialogLeg::Caller,
        },
    }
}

/// One step of a REFER: accept it, with a `400` NOTIFY when Refer-To names
/// nothing and the `100 Trying` NOTIFY otherwise; a `404` NOTIFY when the
/// target is not found, a `503` one when no relay port is left (both one
/// past the Trying CSeq); else the transfer of the other leg (for a REFER on
/// a transfer leg, the leg that transfer was for), whose relay is paired
/// with the target's.
pub open spec fn refer_step_spec(s: ReferState, e: ReferEvent) -> (ReferState, ReferAction) {
    let done = ReferState { stage: ReferStage::Done, ..s };
    match (s.stage, e) {
        (ReferStage::Received, ReferEvent::Received { target_named }) => if target_named {
            (ReferState { stage: ReferStage::Resolving, ..s }, ReferAction::AcceptAndTry { cseq: s.notify_cseq })
        } else {
            (done, ReferAction::AcceptAndFail { failure: ReferFailure::BadRequest, cseq: s.notify_cseq })
        },
        (ReferStage::Resolving, ReferEvent::Resolved { found }) => if found {
            (ReferState { stage: ReferStage::Allocating, ..s }, ReferAction::AllocateRelay)
        } else {
            (done, ReferAction::Fail { failure: ReferFailure::NotFound, cseq: (s.notify_cseq + 1) as u32 })
        },
        (ReferStage::Allocating, ReferEvent::Allocated { ok, caller_relay_port, gateway_relay_port }) => if !ok {
            (done, ReferAction::Fail { failure: ReferFailure::Unavailable, cseq: (s.notify_cseq + 1) as u32 })
        } else {
            match refer_transferee(s) {
                DialogLeg::Caller => (done, ReferAction::StartTransfer {
                    transferee: DialogLeg::Caller,
                    paired_port: caller_relay_port,
                    notify_cseq: s.notify_cseq,
                }),
                DialogLeg::Gateway => (done, ReferAction::StartTransfer {
                    transferee: DialogLeg::Gateway,
                    paired_port: gateway_relay_port,
                    notify_cseq: s.notify_cseq,
                }),
                DialogLeg::Transfer => (done, ReferAction::Stop),
            }
        },
        _ => (s, ReferAction::Ignore),
    }
}

/// The step sends a failure NOTIFY after the `100 Trying` one (a `404` or
/// a `503`), whose CSeq is one past the Trying CSeq.
pub open spec fn refer_fails_after_trying(s: ReferState, e: ReferEvent) -> bool {
    (s.stage == ReferStage::Resolving && e == ReferEvent::Resolved { found: false })
        || (s.stage == ReferStage::Allocating && e matches ReferEvent::Allocated { ok: false, .. })
}

/// A transfer pairs the target's relay with the relay of the leg being
/// transferred: the caller's relay port when the caller is transferred, the
/// gateway leg's when the gateway leg is.  The transferred leg is never the
/// leg the REFER came on, and the subscription's NOTIFY CSeq is kept.
pub proof fn lemma_transfer_pairs_transferee_relay(s: ReferState, e: ReferEvent)
    ensures
        refer_step_spec(s, e).1 matches ReferAction::StartTransfer { transferee, paired_port, notify_cseq } ==> {
            &&& s.stage == ReferStage::Allocating
            &&& e matches ReferEvent::Allocated { ok, caller_relay_port, gateway_relay_port }
            &&& ok
            &&& transferee == DialogLeg::Caller ==> paired_port == caller_relay_port
            &&& transferee == DialogLeg::Gateway ==> paired_port == gateway_relay_port
            &&& transferee != DialogLeg::Transfer
            &&& s.source != DialogLeg::Transfer ==> transferee != s.source
            &&& notify_cseq == s.notify_cseq
        },
{
}

/// Once the target's relay port is allocated, a REFER received on the
/// caller or the gateway leg starts the transfer of the other leg.
pub proof fn lemma_allocated_refer_transfers_other_leg(
    s: ReferState,
    caller_relay_port: Option<u16>,
    gateway_relay_port: Option<u16>,
)
    requires
        s.stage == ReferStage::Allocating,
        s.source != DialogLeg::Transfer,
    ensures
        refer_step_spec(s, ReferEvent::Allocated { ok: true, caller_relay_port, gateway_relay_port }).1 == (
            if s.source == DialogLeg::Gateway {
                ReferAction::StartTransfer {
                    transferee: DialogLeg::Caller,
                    paired_port: caller_relay_port,
                    notify_cseq: s.notify_cseq,
                }
            } else {
                ReferAction::StartTransfer {
                    transferee: DialogLeg::Gateway,
                    paired_port: gateway_relay_port,
                    notify_cseq: s.notify_cseq,
                }
            }
        ),
{
}

/// The NOTIFYs of one REFER: the first (`100 Trying`, or the `400` when
/// Refer-To names nothing) carries the subscription's first CSeq, and a
/// `404` or `503` after it the next one.
pub proof fn lemma_refer_notify_cseqs(s: ReferState, e: ReferEvent)
    requires
        s.notify_cseq < u32::MAX,
    ensures
        refer_step_spec(s, e).1 matches ReferAction::AcceptAndTry { cseq } ==> cseq == s.notify_cseq,
        refer_step_spec(s, e).1 matches ReferAction::AcceptAndFail { failure, cseq } ==> cseq == s.notify_cseq
            && failure == ReferFailure::BadRequest,
        refer_step_spec(s, e).1 matches ReferAction::Fail { failure, cseq } ==> cseq == s.notify_cseq + 1
            && (failure == ReferFailure::NotFound || failure == ReferFailure::Unavailable),
{
}

/// One step of a REFER.
pub fn refer_step(state: &ReferState, event: ReferEvent) -> (r: (ReferState, ReferAction))
    requires
        refer_fails_after_trying(*state, event) ==> state.notify_cseq < u32::MAX,
    ensures
        r == refer_step_spec(*state, event),
{
    let s = *state;
    let done = ReferState { stage: ReferStage::Done, ..s };
    match (s.stage, event) {
        (ReferStage::Received, ReferEvent::Received { target_named }) => if target_named {
            (ReferState { stage: ReferStage::Resolving, ..s }, ReferAction::AcceptAndTry { cseq: s.notify_cseq })
        } else {
            (done, ReferAction::AcceptAndFail { failure: ReferFailure::BadRequest, cseq: s.notify_cseq })
        },
        (ReferStage::Resolving, ReferEvent::Resolved { found }) => if found {
            (ReferState { stage: ReferStage::Allocating, ..s }, ReferAction::AllocateRelay)
        } else {
            (done, ReferAction::Fail { failure: ReferFailure::NotFound, cseq: s.notify_cseq + 1 })
        },
        (ReferStage::Allocating, ReferEvent::Allocated { ok, caller_relay_port, gateway_relay_port }) => if !ok {
            (done, ReferAction::Fail { failure: ReferFailure::Unavailable, cseq: s.notify_cseq + 1 })
        } else {
            match transferee_leg(s.source, s.transfer_for) {
                DialogLeg::Caller => (done, ReferAction::StartTransfer {
                    transferee: DialogLeg::Caller,
                    paired_port: caller_relay_port,
                    notify_cseq: s.notify_cseq,
                }),
                DialogLeg::Gateway => (done, ReferAction::StartTransfer {
                    transferee: DialogLeg::Gateway,
                    paired_port: gateway_relay_port,
                    notify_cseq: s.notify_cseq,
                }),
                DialogLeg::Transfer => (done, ReferAction::Stop),
            }
        },
        _ => (s, ReferAction::Ignore),
    }
}

} // verus!
