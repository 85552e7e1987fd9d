//! Interactive call control: the instructions a control webhook answers
//! with, what the edge does for each, and the texts it sends while doing so
//! (the callback events, the 200 OK that answers a parked call, the DTMF
//! INFO bodies, the INVITE of an originated call).
use vstd::prelude::*;
use crate::commands::{
    redirect_control_mode, CallCommand, CommandAction, ControlMode, DialParams, HangupParams,
    StreamParams,
};
use crate::text::{
    byte_len, chars_of, dec, into_bytes, push_char, push_dec, push_str, starts_with, str_eq,
    string_from, trim_ws, utf8_len,
};
use vstd::utf8::encode_utf8;
use crate::ivr::json::{JsonValue, JsonView};

verus! {

/// An instruction a call-control webhook answers with.
pub enum VciInstruction {
    Dial {
        targets: Vec<String>,
        sim_ring: bool,
        caller_id: Option<String>,
        timeout_secs: Option<u32>,
        record_call: bool,
    },
    Play { url: String, loop_count: u32 },
    Gather {
        play_url: Option<String>,
        max_digits: usize,
        timeout_ms: u64,
        inter_digit_timeout_ms: Option<u64>,
        finish_on_key: Option<String>,
        barge_in: bool,
    },
    Hangup { reason_code: u16, sip_cause: Option<u16> },
    Stream { websocket_url: String, format: String, barge_in: bool },
    Record { max_length_secs: u32, play_beep: bool, trim_silence: bool },
    Say { text: String, voice: String, pitch: i32 },
    Queue { queue_id: String, moh_url: String, priority: u32 },
    Conference { room_id: String, start_muted: bool, end_on_exit: bool, max_participants: u32 },
    Redirect { url: String },
    Pause { duration_ms: u64 },
    PlayDigits { digits: String, duration_ms: u64 },
}

/// The instruction a channel command stands for, for the commands that the
/// channel hands on to the instruction executor: Record (no silence
/// trimming), Say (neutral pitch), Queue (priority 1), Conference (ending on
/// exit, at most 20 participants), Redirect, Pause and PlayDigits (100 ms
/// tones).  The other commands have handlers of their own.
pub open spec fn command_instruction_spec(action: CommandAction) -> Option<VciInstruction> {
    match action {
        CommandAction::Record { max_length_secs, play_beep } => Some(
            VciInstruction::Record { max_length_secs, play_beep, trim_silence: false },
        ),
        CommandAction::Say { text, voice } => Some(VciInstruction::Say { text, voice, pitch: 0 }),
        CommandAction::Queue { queue_id, moh_url } => Some(
            VciInstruction::Queue { queue_id, moh_url, priority: 1 },
        ),
        CommandAction::Conference { room_id, start_muted } => Some(
            VciInstruction::Conference { room_id, start_muted, end_on_exit: true, max_participants: 20 },
        ),
        CommandAction::Redirect { url } => Some(VciInstruction::Redirect { url }),
        CommandAction::Pause { duration_ms } => Some(VciInstruction::Pause { duration_ms }),
        CommandAction::PlayDigits { digits } => Some(
            VciInstruction::PlayDigits { digits, duration_ms: 100 },
        ),
        _ => None,
    }
}

pub fn command_instruction(action: CommandAction) -> (r: Option<VciInstruction>)
    ensures
        r == command_instruction_spec(action),
{
    match action {
        CommandAction::Record { max_length_secs, play_beep } => Some(
            VciInstruction::Record { max_length_secs, play_beep, trim_silence: false },
        ),
        CommandAction::Say { text, voice } => Some(VciInstruction::Say { text, voice, pitch: 0 }),
        CommandAction::Queue { queue_id, moh_url } => Some(
            VciInstruction::Queue { queue_id, moh_url, priority: 1 },
        ),
        CommandAction::Conference { room_id, start_muted } => Some(
            VciInstruction::Conference { room_id, start_muted, end_on_exit: true, max_participants: 20 },
        ),
        CommandAction::Redirect { url } => Some(VciInstruction::Redirect { url }),
        CommandAction::Pause { duration_ms } => Some(VciInstruction::Pause { duration_ms }),
        CommandAction::PlayDigits { digits } => Some(
            VciInstruction::PlayDigits { digits, duration_ms: 100 },
        ),
        _ => None,
    }
}

/// Under which name the edge answers a parked call before it plays to it.
#[derive(PartialEq, Eq, Structural, Debug, Clone, Copy)]
pub enum ParkedService {
    Playback,
    Gather,
    Tts,
    Conference,
}

pub open spec fn service_name_spec(s: ParkedService) -> Seq<char> {
    match s {
        ParkedService::Playback => "playback"@,
        ParkedService::Gather => "gather"@,
        ParkedService::Tts => "tts"@,
        ParkedService::Conference => "conference"@,
    }
}

pub open spec fn service_to_tag_spec(s: ParkedService) -> Seq<char> {
    "vosrs-"@ + service_name_spec(s) + "-tag"@
}

impl ParkedService {
    /// The user part of the Contact and the SDP session suffix.
    pub fn name(&self) -> (r: &'static str)
        ensures
            r@ == service_name_spec(*self),
    {
        match self {
            ParkedService::Playback => "playback",
            ParkedService::Gather => "gather",
            ParkedService::Tts => "tts",
            ParkedService::Conference => "conference",
        }
    }

    /// The To tag of the answered dialog.
    pub fn to_tag(&self) -> (r: &'static str)
        ensures
            r@ == service_to_tag_spec(*self),
    {
        let r = match self {
            ParkedService::Playback => "vosrs-playback-tag",
            ParkedService::Gather => "vosrs-gather-tag",
            ParkedService::Tts => "vosrs-tts-tag",
            ParkedService::Conference => "vosrs-conference-tag",
        };
        proof {
            reveal_strlit("vosrs-");
            reveal_strlit("-tag");
            reveal_strlit("playback");
            reveal_strlit("gather");
            reveal_strlit("tts");
            reveal_strlit("conference");
            reveal_strlit("vosrs-playback-tag");
            reveal_strlit("vosrs-gather-tag");
            reveal_strlit("vosrs-tts-tag");
            reveal_strlit("vosrs-conference-tag");
            assert(r@ =~= service_to_tag_spec(*self));
        }
        r
    }
}

/// What the edge does for an instruction.
pub enum VciStep {
    /// The call is neither parked nor active.
    Ignore,
    /// Handed to the channel command handler (Dial, Hangup, Stream).
    Command { action: CommandAction },
    /// Plays a file; `answer` names the parked call's answer, `None` plays
    /// on the active call's relay port.
    Play { answer: Option<ParkedService>, url: String, looped: bool },
    /// Plays an optional prompt and collects DTMF.
    Gather { answer: Option<ParkedService>, play_url: Option<String>, max_digits: usize, timeout_ms: u64 },
    /// Records both legs of an active, bridged call.
    Record { max_length_secs: u32, play_beep: bool },
    Say { answer: Option<ParkedService> },
    Conference { answer: Option<ParkedService>, room_id: String },
    /// Moves the call's control to another endpoint.
    Redirect { mode: ControlMode, url: String },
    Pause { duration_ms: u64 },
    /// Sends the digits towards the gateway as SIP INFO.
    PlayDigits { digits: String },
}

pub open spec fn answer_if(parked: bool, s: ParkedService) -> Option<ParkedService> {
    if parked {
        Some(s)
    } else {
        None
    }
}

pub open spec fn first_target(targets: Seq<String>) -> Option<String> {
    if targets.len() > 0 {
        Some(targets[0])
    } else {
        None
    }
}

/// The step an instruction takes on a call that is `parked` (waiting for
/// its first instruction) or `active` (answered).  A Dial calls the first
/// target; a Play loops when asked to play more than once; a Queue plays
/// its hold music in a loop; a Redirect goes to NATS for `nats://` URLs and
/// `vos_rs.` subjects.
pub open spec fn vci_step_spec(instruction: VciInstruction, parked: bool, active: bool) -> VciStep {
    if !parked && !active {
        VciStep::Ignore
    } else {
        match instruction {
            VciInstruction::Dial { targets, caller_id, timeout_secs, .. } => VciStep::Command {
                action: CommandAction::Dial {
                    params: DialParams {
                        target_gateway: None,
                        target_uri: first_target(targets@),
                        caller_id,
                        timeout_secs,
                    },
                },
            },
            VciInstruction::Play { url, loop_count } => VciStep::Play {
                answer: answer_if(parked, ParkedService::Playback),
                url,
                looped: loop_count > 1,
            },
            VciInstruction::Gather { play_url, max_digits, timeout_ms, .. } => VciStep::Gather {
                answer: answer_if(parked, ParkedService::Gather),
                play_url,
                max_digits,
                timeout_ms,
            },
            VciInstruction::Hangup { sip_cause, .. } => VciStep::Command {
                action: CommandAction::Hangup { params: HangupParams { sip_cause } },
            },
            VciInstruction::Stream { websocket_url, format, barge_in } => VciStep::Command {
                action: CommandAction::Stream { params: StreamParams { websocket_url, format, barge_in } },
            },
            VciInstruction::Record { max_length_secs, play_beep, .. } => VciStep::Record {
                max_length_secs,
                play_beep,
            },
            VciInstruction::Say { .. } => VciStep::Say { answer: answer_if(parked, ParkedService::Tts) },
            VciInstruction::Queue { moh_url, .. } => VciStep::Play {
                answer: answer_if(parked, ParkedService::Playback),
                url: moh_url,
                looped: true,
            },
            VciInstruction::Conference { room_id, .. } => VciStep::Conference {
                answer: answer_if(parked, ParkedService::Conference),
                room_id,
            },
            VciInstruction::Redirect { url } => VciStep::Redirect {
                mode: if starts_with(url@, "nats://"@) || starts_with(url@, "vos_rs."@) {
                    ControlMode::Nats
                } else {
                    ControlMode::Http
                },
                url,
            },
            VciInstruction::Pause { duration_ms } => VciStep::Pause { duration_ms },
            VciInstruction::PlayDigits { digits, .. } => VciStep::PlayDigits { digits },
        }
    }
}

/// A Queue instruction does what a Play of its hold music with a loop
/// count of 9999 does, on every call.
pub proof fn lemma_queue_is_looped_play(
    queue_id: String,
    moh_url: String,
    priority: u32,
    parked: bool,
    active: bool,
)
    ensures
        vci_step_spec(VciInstruction::Queue { queue_id, moh_url, priority }, parked, active)
            == vci_step_spec(VciInstruction::Play { url: moh_url, loop_count: 9999 }, parked, active),
{
}

/// An instruction for a call that is neither parked nor active does
/// nothing, and one for a parked or active call always does something.
pub proof fn lemma_ignored_exactly_when_call_unknown(instruction: VciInstruction, parked: bool, active: bool)
    ensures
        (vci_step_spec(instruction, parked, active) is Ignore) <==> (!parked && !active),
{
}

fn answer_when(parked: bool, s: ParkedService) -> (r: Option<ParkedService>)
    ensures
        r == answer_if(parked, s),
{
    if parked {
        Some(s)
    } else {
        None
    }
}

/// Decides what an instruction does to the call.
pub fn vci_step(instruction: VciInstruction, parked: bool, active: bool) -> (r: VciStep)
    ensures
        r == vci_step_spec(instruction, parked, active),
{
    if !parked && !active {
        return VciStep::Ignore;
    }
    match instruction {
        VciInstruction::Dial { targets, sim_ring: _, caller_id, timeout_secs, record_call: _ } => {
            let target_uri = if targets.len() > 0 {
                Some(targets[0].clone())
            } else {
                None
            };
            VciStep::Command {
                action: CommandAction::Dial {
                    params: DialParams { target_gateway: None, target_uri, caller_id, timeout_secs },
                },
            }
        },
        VciInstruction::Play { url, loop_count } => VciStep::Play {
            answer: answer_when(parked, ParkedService::Playback),
            url,
            looped: loop_count > 1,
        },
        VciInstruction::Gather { play_url, max_digits, timeout_ms, .. } => VciStep::Gather {
            answer: answer_when(parked, ParkedService::Gather),
            play_url,
            max_digits,
            timeout_ms,
        },
        VciInstruction::Hangup { sip_cause, .. } => VciStep::Command {
            action: CommandAction::Hangup { params: HangupParams { sip_cause } },
        },
        VciInstruction::Stream { websocket_url, format, barge_in } => VciStep::Command {
            action: CommandAction::Stream { params: StreamParams { websocket_url, format, barge_in } },
        },
        VciInstruction::Record { max_length_secs, play_beep, .. } => VciStep::Record {
            max_length_secs,
            play_beep,
        },
        VciInstruction::Say { .. } => VciStep::Say { answer: answer_when(parked, ParkedService::Tts) },
        VciInstruction::Queue { moh_url, .. } => VciStep::Play {
            answer: answer_when(parked, ParkedService::Playback),
            url: moh_url,
            looped: true,
        },
        VciInstruction::Conference { room_id, .. } => VciStep::Conference {
            answer: answer_when(parked, ParkedService::Conference),
            room_id,
        },
        VciInstruction::Redirect { url } => {
            let mode = redirect_control_mode(url.as_str());
            VciStep::Redirect { mode, url }
        },
        VciInstruction::Pause { duration_ms } => VciStep::Pause { duration_ms },
        VciInstruction::PlayDigits { digits, .. } => VciStep::PlayDigits { digits },
    }
}

// ---------------------------------------------------------------------------
// Callback events
// ---------------------------------------------------------------------------

/// The event of a callback to the control webhook.
pub enum CallEvent {
    CallInitiated { caller: Option<String>, callee: Option<String>, direction: String, leg: String },
    CallAnswered { sip_status: u16, leg: String },
    DtmfReceived { digits: String, leg: String },
    CallFinished { duration_secs: u64, sip_status: Option<u16>, q850_cause: Option<u16>, reason: String, leg: String },
}

pub enum CallEventView {
    CallInitiated { caller: Option<Seq<char>>, callee: Option<Seq<char>>, direction: Seq<char>, leg: Seq<char> },
    CallAnswered { sip_status: u16, leg: Seq<char> },
    DtmfReceived { digits: Seq<char>, leg: Seq<char> },
    CallFinished { duration_secs: u64, sip_status: Option<u16>, q850_cause: Option<u16>, reason: Seq<char>, leg: Seq<char> },
}

pub open spec fn string_opt_view(o: Option<String>) -> Option<Seq<char>> {
    match o {
        Some(s) => Some(s@),
        None => None,
    }
}

impl View for CallEvent {
    type V = CallEventView;

    open spec fn view(&self) -> CallEventView {
        match self {
            CallEvent::CallInitiated { caller, callee, direction, leg } => CallEventView::CallInitiated {
                caller: string_opt_view(*caller),
                callee: string_opt_view(*callee),
                direction: direction@,
                leg: leg@,
            },
            CallEvent::CallAnswered { sip_status, leg } => CallEventView::CallAnswered {
                sip_status: *sip_status,
                leg: leg@,
            },
            CallEvent::DtmfReceived { digits, leg } => CallEventView::DtmfReceived { digits: digits@, leg: leg@ },
            CallEvent::CallFinished { duration_secs, sip_status, q850_cause, reason, leg } => CallEventView::CallFinished {
                duration_secs: *duration_secs,
                sip_status: *sip_status,
                q850_cause: *q850_cause,
                reason: reason@,
                leg: leg@,
            },
        }
    }
}

/// Why the edge calls the control webhook.
pub enum FollowUp {
    /// A new call reached the edge under interactive control.
    Initiated { caller: Option<String>, callee: String },
    /// A Play finished.
    PlaybackDone,
    /// A Gather ended with these digits.
    GatherDone { digits: String },
    /// A Pause elapsed.
    PauseDone,
    /// A Say was taken up.
    SayStarted,
    /// A Redirect moved the control.
    Redirected,
    /// The call ended after `duration_secs`; `local_session` when the edge
    /// itself was the far end (a conference or a media session).
    Finished { duration_secs: u64, local_session: bool },
}

/// Sequence number and event of each callback.
pub open spec fn follow_up_spec(f: FollowUp) -> (u64, CallEventView) {
    match f {
        FollowUp::Initiated { caller, callee } => (1, CallEventView::CallInitiated {
            caller: string_opt_view(caller),
            callee: Some(callee@),
            direction: "inbound"@,
            leg: "a_leg"@,
        }),
        FollowUp::PlaybackDone => (2, CallEventView::CallAnswered { sip_status: 200, leg: "b_leg"@ }),
        FollowUp::GatherDone { digits } => (3, CallEventView::DtmfReceived { digits: digits@, leg: "a_leg"@ }),
        FollowUp::PauseDone => (4, CallEventView::CallAnswered { sip_status: 200, leg: "a_leg"@ }),
        FollowUp::SayStarted => (5, CallEventView::CallAnswered { sip_status: 200, leg: "b_leg"@ }),
        FollowUp::Redirected => (1, CallEventView::CallInitiated {
            caller: None,
            callee: None,
            direction: "inbound"@,
            leg: "a_leg"@,
        }),
        FollowUp::Finished { duration_secs, local_session } => (5, CallEventView::CallFinished {
            duration_secs,
            sip_status: Some(200),
            q850_cause: Some(16),
            reason: if local_session {
                "Normal clearing (local session ended)"@
            } else {
                "Normal clearing"@
            },
            leg: "a_leg"@,
        }),
    }
}

pub fn follow_up_event(f: FollowUp) -> (r: (u64, CallEvent))
    ensures
        (r.0, r.1@) == follow_up_spec(f),
{
    match f {
        FollowUp::Initiated { caller, callee } => (1, CallEvent::CallInitiated {
            caller,
            callee: Some(callee),
            direction: string_from("inbound"),
            leg: string_from("a_leg"),
        }),
        FollowUp::PlaybackDone => (2, CallEvent::CallAnswered { sip_status: 200, leg: string_from("b_leg") }),
        FollowUp::GatherDone { digits } => (3, CallEvent::DtmfReceived { digits, leg: string_from("a_leg") }),
        FollowUp::PauseDone => (4, CallEvent::CallAnswered { sip_status: 200, leg: string_from("a_leg") }),
        FollowUp::SayStarted => (5, CallEvent::CallAnswered { sip_status: 200, leg: string_from("b_leg") }),
        FollowUp::Redirected => (1, CallEvent::CallInitiated {
            caller: None,
            callee: None,
            direction: string_from("inbound"),
            leg: string_from("a_leg"),
        }),
        FollowUp::Finished { duration_secs, local_session } => (5, CallEvent::CallFinished {
            duration_secs,
            sip_status: Some(200),
            q850_cause: Some(16),
            reason: string_from(
                if local_session {
                    "Normal clearing (local session ended)"
                } else {
                    "Normal clearing"
                },
            ),
            leg: string_from("a_leg"),
        }),
    }
}

/// What follows the webhook's answer to a new call: its instruction, or a
/// hangup with cause 500 when it gave none.
pub enum ControlReply {
    Execute { instruction: VciInstruction },
    Command { command: CallCommand },
}

pub fn initial_reply(call_id: String, reply: Option<VciInstruction>) -> (r: ControlReply)
    ensures
        match reply {
            Some(i) => r == ControlReply::Execute { instruction: i },
            None => r == ControlReply::Command {
                command: CallCommand {
                    call_id,
                    action: CommandAction::Hangup { params: HangupParams { sip_cause: Some(500) } },
                },
            },
        },
{
    match reply {
        Some(instruction) => ControlReply::Execute { instruction },
        None => ControlReply::Command {
            command: CallCommand {
                call_id,
                action: CommandAction::Hangup { params: HangupParams { sip_cause: Some(500) } },
            },
        },
    }
}

/// One poll of a running Gather: the digits collected so far become the
/// latest the media relay reports, if it reports any, and the Gather ends
/// once they are `max_digits` bytes long.
pub fn gather_poll(gathered: String, latest: Option<String>, max_digits: usize) -> (r: (String, bool))
    ensures
        match latest {
            Some(d) => r.0 == d && r.1 == (utf8_len(d@) >= max_digits),
            None => r.0 == gathered && !r.1,
        },
{
    match latest {
        Some(d) => {
            let done = byte_len(d.as_str()) >= max_digits;
            (d, done)
        },
        None => (gathered, false),
    }
}

/// What a channel Gather reports when it ends: the call, the digits and a
/// `success` status, keys in ascending order.
pub open spec fn gather_report_spec(call_id: Seq<char>, digits: Seq<char>) -> JsonView {
    JsonView::Object(
        seq![
            ("call_id"@, JsonView::Str(call_id)),
            ("digits"@, JsonView::Str(digits)),
            ("status"@, JsonView::Str("success"@)),
        ],
    )
}

pub fn gather_report(call_id: &str, digits: &str) -> (r: JsonValue)
    ensures
        r@ == gather_report_spec(call_id@, digits@),
{
    let mut members: Vec<(String, JsonValue)> = Vec::new();
    members.push((string_from("call_id"), JsonValue::String(string_from(call_id))));
    members.push((string_from("digits"), JsonValue::String(string_from(digits))));
    members.push((string_from("status"), JsonValue::String(string_from("success"))));
    proof {
        crate::ivr::json::lemma_jview_members(members@);
        assert(crate::ivr::json::jview_members(members@) =~= seq![
            ("call_id"@, JsonView::Str(call_id@)),
            ("digits"@, JsonView::Str(digits@)),
            ("status"@, JsonView::Str("success"@)),
        ]);
    }
    JsonValue::Object(members)
}

} // verus!

verus! {

// ---------------------------------------------------------------------------
// Answering a parked call
// ---------------------------------------------------------------------------

pub open spec fn codec_label(pcmu: bool) -> Seq<char> {
    if pcmu {
        "PCMU"@
    } else {
        "PCMA"@
    }
}

/// The payload type offered: the codec's static one, 8 when it has none.
pub open spec fn payload_type_or_pcma(pt: Option<u8>) -> u8 {
    match pt {
        Some(p) => p,
        None => 8,
    }
}

/// The one-codec audio SDP the edge sends from its relay port, with
/// telephone-event on payload type 101 when `dtmf` is set.
pub open spec fn audio_sdp_spec(
    addr: Seq<char>,
    session: Seq<char>,
    port: u16,
    payload_type: Option<u8>,
    pcmu: bool,
    dtmf: bool,
) -> Seq<char> {
    let pt = dec(payload_type_or_pcma(payload_type) as nat);
    "v=0\r\no=vos-rs 123456 123456 IN IP4 "@ + addr + "\r\ns=vos-rs-"@ + session + "\r\nc=IN IP4 "@ + addr
        + "\r\nt=0 0\r\nm=audio "@ + dec(port as nat) + " RTP/AVP "@ + pt + (if dtmf {
        " 101"@
    } else {
        Seq::empty()
    }) + "\r\na=rtpmap:"@ + pt + " "@ + codec_label(pcmu) + "/8000\r\n"@ + (if dtmf {
        "a=rtpmap:101 telephone-event/8000\r\na=fmtp:101 0-15\r\n"@
    } else {
        Seq::empty()
    }) + "a=sendrecv\r\n"@
}

pub fn audio_sdp(
    media_addr: &str,
    session: &str,
    port: u16,
    payload_type: Option<u8>,
    pcmu: bool,
    dtmf: bool,
) -> (r: String)
    ensures
        r@ == audio_sdp_spec(media_addr@, session@, port, payload_type, pcmu, dtmf),
{
    let pt: u8 = match payload_type {
        Some(p) => p,
        None => 8,
    };
    let mut out = string_from("v=0\r\no=vos-rs 123456 123456 IN IP4 ");
    push_str(&mut out, media_addr);
    push_str(&mut out, "\r\ns=vos-rs-");
    push_str(&mut out, session);
    push_str(&mut out, "\r\nc=IN IP4 ");
    push_str(&mut out, media_addr);
    push_str(&mut out, "\r\nt=0 0\r\nm=audio ");
    push_dec(&mut out, port as u64);
    push_str(&mut out, " RTP/AVP ");
    push_dec(&mut out, pt as u64);
    if dtmf {
        push_str(&mut out, " 101");
    }
    push_str(&mut out, "\r\na=rtpmap:");
    push_dec(&mut out, pt as u64);
    push_str(&mut out, " ");
    push_str(&mut out, if pcmu { "PCMU" } else { "PCMA" });
    push_str(&mut out, "/8000\r\n");
    if dtmf {
        push_str(&mut out, "a=rtpmap:101 telephone-event/8000\r\na=fmtp:101 0-15\r\n");
    }
    push_str(&mut out, "a=sendrecv\r\n");
    proof {
        assert(out@ =~= audio_sdp_spec(media_addr@, session@, port, payload_type, pcmu, dtmf));
    }
    out
}

/// The headers of the 200 OK that answers a parked call as `user`.
pub fn answer_headers(user: &str, advertised_addr: &str) -> (r: Vec<(String, String)>)
    ensures
        r@.map_values(|p: (String, String)| (p.0@, p.1@)) == seq![
            ("Content-Type"@, "application/sdp"@),
            ("Contact"@, "<sip:"@ + user@ + "@"@ + advertised_addr@ + ">"@),
        ],
{
    let mut contact = string_from("<sip:");
    push_str(&mut contact, user);
    push_str(&mut contact, "@");
    push_str(&mut contact, advertised_addr);
    push_str(&mut contact, ">");
    let mut r: Vec<(String, String)> = Vec::new();
    r.push((string_from("Content-Type"), string_from("application/sdp")));
    r.push((string_from("Contact"), contact));
    proof {
        assert(r@.map_values(|p: (String, String)| (p.0@, p.1@)) =~= seq![
            ("Content-Type"@, "application/sdp"@),
            ("Contact"@, "<sip:"@ + user@ + "@"@ + advertised_addr@ + ">"@),
        ]);
    }
    r
}

// ---------------------------------------------------------------------------
// Originating a call
// ---------------------------------------------------------------------------

/// The INVITE of a call the edge originates: from `caller_id` at the edge
/// to `target`, with the PCMA offer `sdp` and its length in bytes.
pub open spec fn originate_invite_text(
    target: Seq<char>,
    caller_id: Seq<char>,
    addr: Seq<char>,
    call_id: Seq<char>,
    gateway_call_id: Seq<char>,
    local_tag: Seq<char>,
    sdp: Seq<char>,
) -> Seq<char> {
    "INVITE "@ + target + " SIP/2.0\r\nVia: SIP/2.0/UDP "@ + addr + ";branch=z9hG4bK-originate-"@ + call_id
        + "\r\nMax-Forwards: 70\r\nFrom: <sip:"@ + caller_id + "@"@ + addr + ">;tag="@ + local_tag
        + "\r\nTo: <"@ + target + ">\r\nCall-ID: "@ + gateway_call_id
        + "\r\nCSeq: 1 INVITE\r\nContact: <sip:vosrs-originate@"@ + addr
        + ">\r\nContent-Type: application/sdp\r\nContent-Length: "@ + dec(utf8_len(sdp))
        + "\r\n\r\n"@ + sdp
}

/// The offer of an originated call: PCMA from the allocated relay port.
pub open spec fn originate_offer_spec(media_addr: Seq<char>, port: u16) -> Seq<char> {
    audio_sdp_spec(media_addr, "originate"@, port, Some(8), false, false)
}

pub fn originate_invite(
    target_uri: &str,
    caller_id: &str,
    advertised_addr: &str,
    media_addr: &str,
    relay_port: u16,
    call_id: &str,
    gateway_call_id: &str,
    local_tag: &str,
) -> (r: Vec<u8>)
    ensures
        r@ == encode_utf8(
            originate_invite_text(
                target_uri@,
                caller_id@,
                advertised_addr@,
                call_id@,
                gateway_call_id@,
                local_tag@,
                originate_offer_spec(media_addr@, relay_port),
            ),
        ),
{
    let sdp = audio_sdp(media_addr, "originate", relay_port, Some(8), false, false);
    let sdp_len = byte_len(sdp.as_str());
    let mut out = string_from("INVITE ");
    push_str(&mut out, target_uri);
    push_str(&mut out, " SIP/2.0\r\nVia: SIP/2.0/UDP ");
    push_str(&mut out, advertised_addr);
    push_str(&mut out, ";branch=z9hG4bK-originate-");
    push_str(&mut out, call_id);
    push_str(&mut out, "\r\nMax-Forwards: 70\r\nFrom: <sip:");
    push_str(&mut out, caller_id);
    push_str(&mut out, "@");
    push_str(&mut out, advertised_addr);
    push_str(&mut out, ">;tag=");
    push_str(&mut out, local_tag);
    push_str(&mut out, "\r\nTo: <");
    push_str(&mut out, target_uri);
    push_str(&mut out, ">\r\nCall-ID: ");
    push_str(&mut out, gateway_call_id);
    push_str(&mut out, "\r\nCSeq: 1 INVITE\r\nContact: <sip:vosrs-originate@");
    push_str(&mut out, advertised_addr);
    push_str(&mut out, ">\r\nContent-Type: application/sdp\r\nContent-Length: ");
    push_dec(&mut out, sdp_len as u64);
    push_str(&mut out, "\r\n\r\n");
    push_str(&mut out, sdp.as_str());
    proof {
        assert(out@ =~= originate_invite_text(
            target_uri@,
            caller_id@,
            advertised_addr@,
            call_id@,
            gateway_call_id@,
            local_tag@,
            originate_offer_spec(media_addr@, relay_port),
        ));
    }
    into_bytes(out)
}

// ---------------------------------------------------------------------------
// DTMF towards the gateway
// ---------------------------------------------------------------------------

/// Body of the SIP INFO that carries one digit.
pub open spec fn dtmf_info_body_spec(c: char) -> Seq<char> {
    "Signal="@ + seq![c] + "\r\nDuration=160\r\n"@
}

/// One INFO body per character of `digits`, in order.
pub fn dtmf_info_bodies(digits: &str) -> (r: Vec<String>)
    ensures
        r@.len() == digits@.len(),
        forall|i: int| 0 <= i < r@.len() ==> #[trigger] r@[i]@ == dtmf_info_body_spec(digits@[i]),
{
    let v = chars_of(digits);
    let mut r: Vec<String> = Vec::new();
    let mut i: usize = 0;
    while i < v.len()
        invariant
            i <= v@.len(),
            v@ == digits@,
            r@.len() == i,
            forall|k: int| 0 <= k < i ==> #[trigger] r@[k]@ == dtmf_info_body_spec(digits@[k]),
        decreases v@.len() - i,
    {
        let mut body = string_from("Signal=");
        push_char(&mut body, v[i]);
        push_str(&mut body, "\r\nDuration=160\r\n");
        proof {
            assert(body@ =~= dtmf_info_body_spec(digits@[i as int]));
        }
        r.push(body);
        i = i + 1;
    }
    r
}

// ---------------------------------------------------------------------------
// Reaching the control webhook
// ---------------------------------------------------------------------------

/// How a callback reaches the control endpoint.
#[derive(PartialEq, Eq, Structural, Debug, Clone, Copy)]
pub enum WebhookRoute {
    /// NATS request-reply on the control subject.
    Nats,
    /// A signed HTTP POST to the endpoint URL.
    Http,
    /// No endpoint is configured: no callback is made.
    Disabled,
}

pub open spec fn webhook_route_spec(control_mode: Seq<char>, endpoint_url: Seq<char>) -> WebhookRoute {
    if control_mode == "nats"@ {
        WebhookRoute::Nats
    } else if trim_ws(endpoint_url).len() == 0 {
        WebhookRoute::Disabled
    } else {
        WebhookRoute::Http
    }
}

pub fn webhook_route(control_mode: &str, endpoint_url: &str) -> (r: WebhookRoute)
    ensures
        r == webhook_route_spec(control_mode@, endpoint_url@),
{
    if str_eq(control_mode, "nats") {
        return WebhookRoute::Nats;
    }
    let v = chars_of(endpoint_url);
    let (a, b) = crate::text::exec_trim_range(&v, 0, v.len());
    proof {
        assert(v@.subrange(0, v@.len() as int) =~= v@);
    }
    if a == b {
        WebhookRoute::Disabled
    } else {
        WebhookRoute::Http
    }
}

/// Headers of a signed HTTP callback; the signature goes as `v1=<sig>`.
pub fn webhook_headers(event_id: &str, timestamp: &str, signature: &str) -> (r: Vec<(String, String)>)
    ensures
        r@.map_values(|p: (String, String)| (p.0@, p.1@)) == seq![
            ("content-type"@, "application/json"@),
            ("x-vos-webhook-id"@, event_id@),
            ("x-vos-webhook-timestamp"@, timestamp@),
            ("x-vos-webhook-signature"@, "v1="@ + signature@),
        ],
{
    let mut sig = string_from("v1=");
    push_str(&mut sig, signature);
    let mut r: Vec<(String, String)> = Vec::new();
    r.push((string_from("content-type"), string_from("application/json")));
    r.push((string_from("x-vos-webhook-id"), string_from(event_id)));
    r.push((string_from("x-vos-webhook-timestamp"), string_from(timestamp)));
    r.push((string_from("x-vos-webhook-signature"), sig));
    proof {
        assert(r@.map_values(|p: (String, String)| (p.0@, p.1@)) =~= seq![
            ("content-type"@, "application/json"@),
            ("x-vos-webhook-id"@, event_id@),
            ("x-vos-webhook-timestamp"@, timestamp@),
            ("x-vos-webhook-signature"@, "v1="@ + signature@),
        ]);
    }
    r
}

} // verus!
