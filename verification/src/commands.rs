//! Call-control commands received on the VCI channel, and the decisions the
//! hangup command takes before any signalling is sent.
use vstd::prelude::*;
use crate::outbound::CallerIdentity;
use crate::text::{chars_of, dec, exec_starts_with, push_dec, push_str, starts_with};

verus! {

pub struct DialParams {
    pub target_gateway: Option<String>,
    pub target_uri: Option<String>,
    pub caller_id: Option<String>,
    pub timeout_secs: Option<u32>,
}

pub struct PlayParams {
    pub url: String,
    pub loop_count: Option<u32>,
}

pub struct GatherParams {
    pub play_url: Option<String>,
    pub max_digits: usize,
    pub timeout_ms: u64,
}

pub struct HangupParams {
    pub sip_cause: Option<u16>,
}

pub struct StreamParams {
    pub websocket_url: String,
    pub format: String,
    pub barge_in: bool,
}

/// Every call-control action the channel carries.
pub enum CommandAction {
    Dial { params: DialParams },
    Play { params: PlayParams },
    Gather { params: GatherParams },
    Hangup { params: HangupParams },
    Stream { params: StreamParams },
    Record { max_length_secs: u32, play_beep: bool },
    Say { text: String, voice: String },
    Queue { queue_id: String, moh_url: String },
    Conference { room_id: String, start_muted: bool },
    Redirect { url: String },
    Pause { duration_ms: u64 },
    PlayDigits { digits: String },
    Originate { target_uri: String, caller_id: String },
    Bridge { call_id_a: String, call_id_b: String },
}

/// One command addressed to a call.
pub struct CallCommand {
    pub call_id: String,
    pub action: CommandAction,
}

/// SIP status a hangup answers a parked call with: the requested cause, 603 by default.
pub open spec fn hangup_cause_spec(p: HangupParams) -> u16 {
    match p.sip_cause {
        Some(c) => c,
        None => 603,
    }
}

pub fn hangup_cause(params: &HangupParams) -> (r: u16)
    ensures
        r == hangup_cause_spec(*params),
{
    match params.sip_cause {
        Some(c) => c,
        None => 603,
    }
}

/// Reason phrase sent with a hangup status; causes without their own phrase
/// are answered as `Decline`.
pub open spec fn hangup_reason_phrase_spec(code: u16) -> Seq<char> {
    if code == 486 {
        "Busy Here"@
    } else if code == 480 {
        "Temporarily Unavailable"@
    } else if code == 488 {
        "Not Acceptable Here"@
    } else if code == 503 {
        "Service Unavailable"@
    } else {
        "Decline"@
    }
}

pub fn hangup_reason_phrase(code: u16) -> (r: &'static str)
    ensures
        r@ == hangup_reason_phrase_spec(code),
{
    if code == 486 {
        "Busy Here"
    } else if code == 480 {
        "Temporarily Unavailable"
    } else if code == 488 {
        "Not Acceptable Here"
    } else if code == 503 {
        "Service Unavailable"
    } else {
        "Decline"
    }
}

/// Termination reason recorded for a hangup: `VCI Hangup (<cause>)`.
pub open spec fn hangup_termination_reason_spec(cause: u16) -> Seq<char> {
    "VCI Hangup ("@ + dec(cause as nat) + ")"@
}

pub fn hangup_termination_reason(cause: u16) -> (r: String)
    ensures
        r@ == hangup_termination_reason_spec(cause),
{
    let mut out = String::new();
    push_str(&mut out, "VCI Hangup (");
    push_dec(&mut out, cause as u64);
    push_str(&mut out, ")");
    assert(out@ =~= hangup_termination_reason_spec(cause));
    out
}

/// The URI text a Dial command calls, before parsing: its `target_uri`;
/// else, with a `target_gateway`, the parked call's callee at that gateway's
/// address (or at the default gateway when the gateway is unknown); else
/// none, and the parked INVITE's own URI is used.  A text that does not
/// parse also falls back to the parked URI.
pub open spec fn dial_target_spec(
    p: DialParams,
    callee: Seq<char>,
    gateway_addr: Option<Seq<char>>,
    default_gateway: Seq<char>,
) -> Option<Seq<char>> {
    match p.target_uri {
        Some(u) => Some(u@),
        None => match p.target_gateway {
            Some(_) => Some(
                "sip:"@ + callee + "@"@ + match gateway_addr {
                    Some(a) => a,
                    None => default_gateway,
                },
            ),
            None => None,
        },
    }
}

pub fn dial_target(
    params: &DialParams,
    callee: &str,
    gateway_addr: Option<&str>,
    default_gateway: &str,
) -> (r: Option<String>)
    ensures
        match r {
            Some(t) => dial_target_spec(
                *params,
                callee@,
                match gateway_addr {
                    Some(a) => Some(a@),
                    None => None,
                },
                default_gateway@,
            ) == Some(t@),
            None => dial_target_spec(
                *params,
                callee@,
                match gateway_addr {
                    Some(a) => Some(a@),
                    None => None,
                },
                default_gateway@,
            ) is None,
        },
{
    match &params.target_uri {
        Some(u) => Some(u.clone()),
        None => match &params.target_gateway {
            Some(_) => {
                let mut out = String::new();
                push_str(&mut out, "sip:");
                push_str(&mut out, callee);
                push_str(&mut out, "@");
                match gateway_addr {
                    Some(a) => push_str(&mut out, a),
                    None => push_str(&mut out, default_gateway),
                }
                Some(out)
            },
            None => None,
        },
    }
}

/// Where a Redirect command sends the call's control: a NATS subject for
/// `nats://` URLs and `vos_rs.` subjects, an HTTP endpoint otherwise.
#[derive(PartialEq, Eq, Structural, Debug, Clone, Copy)]
pub enum ControlMode {
    Nats,
    Http,
}

pub fn redirect_control_mode(url: &str) -> (r: ControlMode)
    ensures
        r == (if starts_with(url@, "nats://"@) || starts_with(url@, "vos_rs."@) {
            ControlMode::Nats
        } else {
            ControlMode::Http
        }),
{
    let v = chars_of(url);
    let nats = chars_of("nats://");
    let subject = chars_of("vos_rs.");
    if exec_starts_with(&v, &nats) || exec_starts_with(&v, &subject) {
        ControlMode::Nats
    } else {
        ControlMode::Http
    }
}

/// The caller identity a Dial command presents: its caller id as both the
/// original and the presented number.
pub fn dial_caller_identity(caller_id: &Option<String>) -> (r: Option<CallerIdentity>)
    ensures
        match caller_id {
            Some(n) => r matches Some(i) && i.original_number@ == n@ && i.presented_number@ == n@,
            None => r is None,
        },
{
    match caller_id {
        Some(n) => Some(CallerIdentity { original_number: n.clone(), presented_number: n.clone() }),
        None => None,
    }
}

} // verus!
