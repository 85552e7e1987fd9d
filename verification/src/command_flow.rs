//! The call-control channel as a step function: a command and what is known
//! of the call it addresses give the call's new standing and what to do.
use vstd::prelude::*;
use crate::commands::{
    hangup_cause, hangup_cause_spec, hangup_reason_phrase, hangup_reason_phrase_spec,
    hangup_termination_reason, hangup_termination_reason_spec, CallCommand, CommandAction,
};
use crate::vci::{command_instruction, command_instruction_spec, VciInstruction};

verus! {

/// What the edge knows of the call a command addresses.
#[derive(PartialEq, Eq, Structural, Debug, Clone, Copy)]
pub struct CallTableView {
    /// The signalling socket is up.
    pub socket_ready: bool,
    /// The call waits parked for its first command.
    pub parked: bool,
    /// The call has an active session.
    pub active: bool,
    /// The active session's caller relay port.
    pub relay_port: Option<u16>,
    /// For a Bridge: the caller relay ports of its two calls.
    pub bridge_port_a: Option<u16>,
    pub bridge_port_b: Option<u16>,
}

/// What a command does.
pub enum CommandPlan {
    /// No socket: nothing can be sent.
    NoSocket,
    /// The command needs a parked call and there is none.
    NotParked,
    /// A Stream for a call that is neither parked nor active.
    NotFound,
    /// A Stream for an active call without a relay port.
    NoRelayPort,
    /// Send the parked INVITE onwards as a B2BUA INVITE.
    Dial { call_id: String, target_gateway: Option<String>, target_uri: Option<String>, caller_id: Option<String>, timeout_secs: Option<u32> },
    /// Hang up a parked call: answer its INVITE with `status` and `reason`,
    /// release its relay target when `release_relay`, and end the call in
    /// the call manager (termination, CDR, settlement) with
    /// `termination_reason`.
    RejectParked { status: u16, reason: &'static str, release_relay: bool, termination_reason: String },
    /// End the active session with BYEs, then end the call with
    /// `termination_reason`.
    EndSession { cause: u16, termination_reason: String },
    /// No parked call and no session: only end the call with `termination_reason`.
    FinalizeOnly { cause: u16, termination_reason: String },
    /// Answer the parked call and play `url`, in a loop when asked more than once.
    AnswerAndPlay { url: String, looped: bool },
    /// Answer the parked call, play the prompt and collect DTMF.
    AnswerAndGather { play_url: Option<String>, max_digits: usize, timeout_ms: u64 },
    /// Answer the parked call and stream its audio.
    AnswerAndStream { websocket_url: String, format: String, barge_in: bool },
    /// Stream the active call's audio from `port`.
    Stream { port: u16, websocket_url: String, format: String, barge_in: bool },
    /// Hand the command to the instruction executor.
    Instruction { instruction: VciInstruction },
    Originate { target_uri: String, caller_id: String },
    /// Relay the two calls' audio to each other.
    PairPorts { a: u16, b: u16 },
    /// A Bridge whose calls lack relay ports.
    BridgeFailed,
}

/// One command on the channel, Hangups aside (see `hangup_ok`).  Dial,
/// Play and Gather need a parked call and take it out of the parked set (a
/// Dial's session is registered once its offer is rewritten); a Stream answers a parked call or
/// uses an active one's relay port; the simpler commands become
/// instructions; Originate and Bridge act on their own arguments.
pub open spec fn command_step_spec(t: CallTableView, cmd: CallCommand) -> (CallTableView, CommandPlan) {
    if !t.socket_ready {
        (t, CommandPlan::NoSocket)
    } else {
        match cmd.action {
            CommandAction::Dial { params } => if t.parked {
                (CallTableView { parked: false, ..t }, CommandPlan::Dial {
                    call_id: cmd.call_id,
                    target_gateway: params.target_gateway,
                    target_uri: params.target_uri,
                    caller_id: params.caller_id,
                    timeout_secs: params.timeout_secs,
                })
            } else {
                (t, CommandPlan::NotParked)
            },
            // Hangups are stated by `hangup_ok`, which `command_step_ok` uses instead.
            CommandAction::Hangup { .. } => (t, CommandPlan::NotFound),
            CommandAction::Play { params } => if t.parked {
                (CallTableView { parked: false, ..t }, CommandPlan::AnswerAndPlay {
                    url: params.url,
                    looped: match params.loop_count {
                        Some(n) => n > 1,
                        None => false,
                    },
                })
            } else {
                (t, CommandPlan::NotParked)
            },
            CommandAction::Gather { params } => if t.parked {
                (CallTableView { parked: false, ..t }, CommandPlan::AnswerAndGather {
                    play_url: params.play_url,
                    max_digits: params.max_digits,
                    timeout_ms: params.timeout_ms,
                })
            } else {
                (t, CommandPlan::NotParked)
            },
            CommandAction::Stream { params } => if t.parked {
                (CallTableView { parked: false, active: true, ..t }, CommandPlan::AnswerAndStream {
                    websocket_url: params.websocket_url,
                    format: params.format,
                    barge_in: params.barge_in,
                })
            } else if t.active {
                match t.relay_port {
                    Some(p) => (t, CommandPlan::Stream {
                        port: p,
                        websocket_url: params.websocket_url,
                        format: params.format,
                        barge_in: params.barge_in,
                    }),
                    None => (t, CommandPlan::NoRelayPort),
                }
            } else {
                (t, CommandPlan::NotFound)
            },
            CommandAction::Originate { target_uri, caller_id } => (t, CommandPlan::Originate { target_uri, caller_id }),
            CommandAction::Bridge { .. } => match (t.bridge_port_a, t.bridge_port_b) {
                (Some(a), Some(b)) => (t, CommandPlan::PairPorts { a, b }),
                _ => (t, CommandPlan::BridgeFailed),
            },
            other => (t, CommandPlan::Instruction { instruction: command_instruction_spec(other).unwrap() }),
        }
    }
}

/// A Hangup's outcome: a parked call is answered with the cause (603 by
/// default) and its reason phrase, its relay released and the call ended;
/// an active session is ended with BYEs; otherwise only the call is ended.
/// The call is ended with the reason `VCI Hangup (<cause>)` in every case.
pub open spec fn hangup_ok(t: CallTableView, cause: u16, r: (CallTableView, CommandPlan)) -> bool {
    let reason = hangup_termination_reason_spec(cause);
    if t.parked {
        &&& r.0 == CallTableView { parked: false, ..t }
        &&& r.1 matches CommandPlan::RejectParked { status, reason: phrase, release_relay, termination_reason }
        &&& status == cause && phrase@ == hangup_reason_phrase_spec(cause) && release_relay
            && termination_reason@ == reason
    } else if t.active {
        &&& r.0 == CallTableView { active: false, relay_port: None, ..t }
        &&& r.1 matches CommandPlan::EndSession { cause: c, termination_reason }
        &&& c == cause && termination_reason@ == reason
    } else {
        &&& r.0 == t
        &&& r.1 matches CommandPlan::FinalizeOnly { cause: c, termination_reason }
        &&& c == cause && termination_reason@ == reason
    }
}

/// What a command does: Hangups as `hangup_ok` says (with a socket), the
/// rest as `command_step_spec` says.
pub open spec fn command_step_ok(t: CallTableView, cmd: CallCommand, r: (CallTableView, CommandPlan)) -> bool {
    match cmd.action {
        CommandAction::Hangup { params } => if t.socket_ready {
            hangup_ok(t, hangup_cause_spec(params), r)
        } else {
            r == command_step_spec(t, cmd)
        },
        _ => r == command_step_spec(t, cmd),
    }
}

/// A Play on a parked call answers it and plays the requested file, in a
/// loop exactly when more than one play was asked for: with no loop count,
/// or a count of one, the file is played once.
pub proof fn lemma_play_loops_only_when_repeated(t: CallTableView, cmd: CallCommand, r: (CallTableView, CommandPlan))
    requires
        command_step_ok(t, cmd, r),
        t.socket_ready,
        t.parked,
    ensures
        cmd.action matches CommandAction::Play { params } ==> {
            &&& r.0 == CallTableView { parked: false, ..t }
            &&& r.1 matches CommandPlan::AnswerAndPlay { url, looped }
            &&& url == params.url
            &&& looped <==> (params.loop_count matches Some(n) && n > 1)
            &&& params.loop_count == None::<u32> ==> !looped
            &&& params.loop_count == Some(1u32) ==> !looped
        },
{
}

/// One command on the call-control channel.
pub fn command_step(calls: &CallTableView, cmd: CallCommand) -> (r: (CallTableView, CommandPlan))
    ensures
        command_step_ok(*calls, cmd, r),
{
    let t = *calls;
    if !t.socket_ready {
        return (t, CommandPlan::NoSocket);
    }
    let call_id = cmd.call_id;
    match cmd.action {
        CommandAction::Dial { params } => if t.parked {
            (CallTableView { parked: false, ..t }, CommandPlan::Dial {
                call_id,
                target_gateway: params.target_gateway,
                target_uri: params.target_uri,
                caller_id: params.caller_id,
                timeout_secs: params.timeout_secs,
            })
        } else {
            (t, CommandPlan::NotParked)
        },
        CommandAction::Hangup { params } => {
            let cause = hangup_cause(&params);
            let termination_reason = hangup_termination_reason(cause);
            if t.parked {
                (CallTableView { parked: false, ..t }, CommandPlan::RejectParked {
                    status: cause,
                    reason: hangup_reason_phrase(cause),
                    release_relay: true,
                    termination_reason,
                })
            } else if t.active {
                (CallTableView { active: false, relay_port: None, ..t }, CommandPlan::EndSession {
                    cause,
                    termination_reason,
                })
            } else {
                (t, CommandPlan::FinalizeOnly { cause, termination_reason })
            }
        },
        CommandAction::Play { params } => if t.parked {
            let looped = match params.loop_count {
                Some(n) => n > 1,
                None => false,
            };
            (CallTableView { parked: false, ..t }, CommandPlan::AnswerAndPlay { url: params.url, looped })
        } else {
            (t, CommandPlan::NotParked)
        },
        CommandAction::Gather { params } => if t.parked {
            (CallTableView { parked: false, ..t }, CommandPlan::AnswerAndGather {
                play_url: params.play_url,
                max_digits: params.max_digits,
                timeout_ms: params.timeout_ms,
            })
        } else {
            (t, CommandPlan::NotParked)
        },
        CommandAction::Stream { params } => if t.parked {
            (CallTableView { parked: false, active: true, ..t }, CommandPlan::AnswerAndStream {
                websocket_url: params.websocket_url,
                format: params.format,
                barge_in: params.barge_in,
            })
        } else if t.active {
            match t.relay_port {
                Some(p) => (t, CommandPlan::Stream {
                    port: p,
                    websocket_url: params.websocket_url,
                    format: params.format,
                    barge_in: params.barge_in,
                }),
                None => (t, CommandPlan::NoRelayPort),
            }
        } else {
            (t, CommandPlan::NotFound)
        },
        CommandAction::Originate { target_uri, caller_id } => (t, CommandPlan::Originate { target_uri, caller_id }),
        CommandAction::Bridge { .. } => match (t.bridge_port_a, t.bridge_port_b) {
            (Some(a), Some(b)) => (t, CommandPlan::PairPorts { a, b }),
            _ => (t, CommandPlan::BridgeFailed),
        },
        other => {
            let ghost o = other;
            match command_instruction(other) {
                Some(instruction) => (t, CommandPlan::Instruction { instruction }),
                None => {
                    assert(command_instruction_spec(o) is Some);
                    (t, CommandPlan::BridgeFailed)
                },
            }
        },
    }
}

} // verus!
