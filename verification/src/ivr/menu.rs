//! The flat DTMF menu IVR: what one poll of the menu loop decides, what a
//! key's action asks for, and the SDP offer and webhook payload it sends.
use vstd::prelude::*;
use crate::ivr::json::{JsonValue, JsonView};
use crate::sip::eq_ignore_case;
use crate::text::{
    byte_len, chars_of, dec, lower_seq, push_dec, push_str, str_eq, string_from, trim_ws, utf8_len,
};

verus! {

/// What pressing a key does.
pub struct IvrAction {
    /// `menu`, `extension`, `pstn`, `queue`, `webhook`, `say`,
    /// `collect_digits`, `voicemail` or `hangup`.
    pub action_type: String,
    pub action_target: String,
    /// Played when the key is pressed, if not blank.
    pub waiting_prompt: Option<String>,
    pub webhook_method: Option<String>,
}

/// A menu: its welcome prompt, how long it waits for a key, and the action
/// of each key (one entry per key).
pub struct IvrMenu {
    pub welcome_prompt: String,
    pub timeout_secs: u32,
    pub actions: Vec<(String, IvrAction)>,
}

/// Seconds a menu waits for a key: its own timeout, or 10 when unset.
pub fn menu_timeout_secs(menu: &IvrMenu) -> (r: u64)
    ensures
        r == (if menu.timeout_secs > 0 {
            menu.timeout_secs as u64
        } else {
            10
        }),
{
    if menu.timeout_secs > 0 {
        menu.timeout_secs as u64
    } else {
        10
    }
}

/// The action bound to key `k` among the first entries from `i` on.
pub open spec fn action_lookup(acts: Seq<(String, IvrAction)>, k: Seq<char>, i: int) -> Option<IvrAction>
    decreases acts.len() - i,
{
    if i < 0 || i >= acts.len() {
        None
    } else if acts[i].0@ == k {
        Some(acts[i].1)
    } else {
        action_lookup(acts, k, i + 1)
    }
}

/// Progress of the key collection within one menu.
pub struct MenuProgress {
    /// Keys taken so far.
    pub accum: String,
    /// Invalid keys so far.
    pub retries: u32,
}

/// How the loop goes on after a poll.
pub enum MenuNext {
    /// Poll again.
    Poll,
    /// Enter menu `menu_id`.
    GotoMenu { menu_id: String },
    /// Run the key's action; the loop ends.
    RunAction { action: IvrAction },
    /// Hang up with this reason; the loop ends.
    Hangup { reason: String },
}

/// What one poll decides: whether to stop the playing prompt, a prompt to
/// play, and how to go on.
pub struct MenuTick {
    pub stop_playback: bool,
    pub prompt: Option<String>,
    pub next: MenuNext,
}

pub enum NextView {
    Poll,
    GotoMenu(Seq<char>),
    RunAction(IvrAction),
    Hangup(Seq<char>),
}

pub open spec fn next_view(n: MenuNext) -> NextView {
    match n {
        MenuNext::Poll => NextView::Poll,
        MenuNext::GotoMenu { menu_id } => NextView::GotoMenu(menu_id@),
        MenuNext::RunAction { action } => NextView::RunAction(action),
        MenuNext::Hangup { reason } => NextView::Hangup(reason@),
    }
}

/// The prompt a key's action plays: its waiting prompt unless blank.
pub open spec fn waiting_prompt_of(a: IvrAction) -> Option<Seq<char>> {
    match a.waiting_prompt {
        Some(p) => if trim_ws(p@).len() > 0 {
            Some(p@)
        } else {
            None
        },
        None => None,
    }
}

pub open spec fn opt_text(o: Option<String>) -> Option<Seq<char>> {
    match o {
        Some(s) => Some(s@),
        None => None,
    }
}

/// Whether a poll sees a key not taken yet: the DTMF digits collected for
/// the call are longer (in bytes) than the keys taken.
pub open spec fn new_key(digits: Option<Seq<char>>, accum: Seq<char>) -> Option<char> {
    match digits {
        Some(d) => if utf8_len(d) > utf8_len(accum) && d.len() > 0 {
            Some(d.last())
        } else {
            None
        },
        None => None,
    }
}

/// One poll of the menu loop.  A new key (the last of the collected digits)
/// stops the prompt; a key with an action plays the action's waiting prompt
/// and enters the target menu (`menu` actions) or runs the action; a key
/// without one counts as a retry, forgets the keys taken, and the third
/// retry hangs up.  Unless the poll ended the loop, waiting past the menu's
/// timeout stops the prompt and hangs up.
pub fn menu_tick(progress: &mut MenuProgress, menu: &IvrMenu, digits: Option<&str>, timed_out: bool) -> (r:
    MenuTick)
    requires
        old(progress).retries < u32::MAX,
    ensures
        ({
            let d = match digits {
                Some(s) => Some(s@),
                None => None,
            };
            match new_key(d, old(progress).accum@) {
                Some(c) => match action_lookup(menu.actions@, seq![c], 0) {
                    Some(a) => {
                        &&& r.stop_playback
                        &&& opt_text(r.prompt) == waiting_prompt_of(a)
                        &&& next_view(r.next) == if a.action_type@ == "menu"@ {
                            NextView::GotoMenu(a.action_target@)
                        } else {
                            NextView::RunAction(a)
                        }
                        &&& final(progress).accum@ == old(progress).accum@.push(c)
                        &&& final(progress).retries == old(progress).retries
                    },
                    None => {
                        &&& r.stop_playback
                        &&& r.prompt is None
                        &&& final(progress).accum@.len() == 0
                        &&& final(progress).retries == old(progress).retries + 1
                        &&& next_view(r.next) == if old(progress).retries + 1 >= 3 {
                            NextView::Hangup("IVR Max Retries Exceeded"@)
                        } else if timed_out {
                            NextView::Hangup("IVR Timeout"@)
                        } else {
                            NextView::Poll
                        }
                    },
                },
                None => {
                    &&& r.prompt is None
                    &&& final(progress).accum == old(progress).accum
                    &&& final(progress).retries == old(progress).retries
                    &&& r.stop_playback == timed_out
                    &&& next_view(r.next) == if timed_out {
                        NextView::Hangup("IVR Timeout"@)
                    } else {
                        NextView::Poll
                    }
                },
            }
        }),
{
    let key: Option<char> = match digits {
        Some(ds) => {
            let dv = chars_of(ds);
            if byte_len(ds) > byte_len(progress.accum.as_str()) && dv.len() > 0 {
                Some(dv[dv.len() - 1])
            } else {
                None
            }
        },
        None => None,
    };
    match key {
        Some(c) => {
            crate::text::push_char(&mut progress.accum, c);
            let mut ks = String::new();
            crate::text::push_char(&mut ks, c);
            assert(ks@ =~= seq![c]);
            match find_action(&menu.actions, ks.as_str()) {
                Some(i) => {
                    let a = clone_action(&menu.actions[i].1);
                    let prompt = match &a.waiting_prompt {
                        Some(p) => {
                            let pv = chars_of(p.as_str());
                            let (x, y) = crate::text::exec_trim_range(&pv, 0, pv.len());
                            assert(pv@.subrange(0, pv@.len() as int) =~= pv@);
                            if y > x {
                                Some(p.clone())
                            } else {
                                None
                            }
                        },
                        None => None,
                    };
                    let next = if str_eq(a.action_type.as_str(), "menu") {
                        MenuNext::GotoMenu { menu_id: a.action_target.clone() }
                    } else {
                        MenuNext::RunAction { action: a }
                    };
                    MenuTick { stop_playback: true, prompt, next }
                },
                None => {
                    progress.retries = progress.retries + 1;
                    progress.accum = String::new();
                    let next = if progress.retries >= 3 {
                        MenuNext::Hangup { reason: string_from("IVR Max Retries Exceeded") }
                    } else if timed_out {
                        MenuNext::Hangup { reason: string_from("IVR Timeout") }
                    } else {
                        MenuNext::Poll
                    };
                    MenuTick { stop_playback: true, prompt: None, next }
                },
            }
        },
        None => {
            if timed_out {
                MenuTick {
                    stop_playback: true,
                    prompt: None,
                    next: MenuNext::Hangup { reason: string_from("IVR Timeout") },
                }
            } else {
                MenuTick { stop_playback: false, prompt: None, next: MenuNext::Poll }
            }
        },
    }
}

fn find_action(acts: &Vec<(String, IvrAction)>, k: &str) -> (r: Option<usize>)
    ensures
        match r {
            Some(i) => i < acts@.len() && action_lookup(acts@, k@, 0) == Some(acts@[i as int].1),
            None => action_lookup(acts@, k@, 0) is None,
        },
{
    let mut i: usize = 0;
    while i < acts.len()
        invariant
            0 <= i <= acts@.len(),
            action_lookup(acts@, k@, 0) == action_lookup(acts@, k@, i as int),
        decreases acts@.len() - i,
    {
        if str_eq(acts[i].0.as_str(), k) {
            return Some(i);
        }
        i = i + 1;
    }
    None
}

fn clone_opt(o: &Option<String>) -> (r: Option<String>)
    ensures
        r == *o,
{
    match o {
        Some(s) => Some(s.clone()),
        None => None,
    }
}

fn clone_action(a: &IvrAction) -> (r: IvrAction)
    ensures
        r == *a,
{
    IvrAction {
        action_type: a.action_type.clone(),
        action_target: a.action_target.clone(),
        waiting_prompt: clone_opt(&a.waiting_prompt),
        webhook_method: clone_opt(&a.webhook_method),
    }
}

// ---------------------------------------------------------------------------
// Key actions
// ---------------------------------------------------------------------------

/// What a key's action asks for.
#[derive(PartialEq, Eq, Structural, Debug, Clone, Copy)]
pub enum ActionPlan {
    /// Call the target: an extension by its registration, a PSTN number by
    /// the routing table.
    TransferExtension,
    TransferPstn,
    /// Play music on hold.
    Queue,
    /// Call the target URL, with GET or else POST.
    Webhook { get: bool },
    /// Only logged.
    Log,
    /// Hang up (`IVR Hangup Action`).
    Hangup,
    /// Hang up (`Unknown IVR Action Type`).
    Unknown,
}

pub open spec fn action_plan_spec(a: IvrAction) -> ActionPlan {
    let t = a.action_type@;
    if t == "extension"@ {
        ActionPlan::TransferExtension
    } else if t == "pstn"@ {
        ActionPlan::TransferPstn
    } else if t == "queue"@ {
        ActionPlan::Queue
    } else if t == "webhook"@ {
        ActionPlan::Webhook {
            get: match a.webhook_method {
                Some(m) => lower_seq(m@) == lower_seq("GET"@),
                None => false,
            },
        }
    } else if t == "say"@ || t == "collect_digits"@ || t == "voicemail"@ {
        ActionPlan::Log
    } else if t == "hangup"@ {
        ActionPlan::Hangup
    } else {
        ActionPlan::Unknown
    }
}

pub fn action_plan(action: &IvrAction) -> (r: ActionPlan)
    ensures
        r == action_plan_spec(*action),
{
    let t = action.action_type.as_str();
    if str_eq(t, "extension") {
        ActionPlan::TransferExtension
    } else if str_eq(t, "pstn") {
        ActionPlan::TransferPstn
    } else if str_eq(t, "queue") {
        ActionPlan::Queue
    } else if str_eq(t, "webhook") {
        let get = match &action.webhook_method {
            Some(m) => eq_ignore_case(m.as_str(), "GET"),
            None => false,
        };
        ActionPlan::Webhook { get }
    } else if str_eq(t, "say") || str_eq(t, "collect_digits") || str_eq(t, "voicemail") {
        ActionPlan::Log
    } else if str_eq(t, "hangup") {
        ActionPlan::Hangup
    } else {
        ActionPlan::Unknown
    }
}

/// The SDP offer of the B-leg a menu transfer starts: G.711 µ-law and
/// A-law plus telephone events, on the relay's port.
pub open spec fn transfer_offer_spec(addr: Seq<char>, port: u16) -> Seq<char> {
    "v=0\r\no=vos-rs 123456 123456 IN IP4 "@ + addr + "\r\ns=-\r\nc=IN IP4 "@ + addr
        + "\r\nt=0 0\r\nm=audio "@ + dec(port as nat)
        + " RTP/AVP 0 8 101\r\na=rtpmap:0 PCMU/8000\r\na=rtpmap:8 PCMA/8000\r\na=rtpmap:101 telephone-event/8000\r\na=fmtp:101 0-16\r\na=sendrecv\r\n"@
}

pub fn transfer_sdp_offer(media_addr: &str, port: u16) -> (r: String)
    ensures
        r@ == transfer_offer_spec(media_addr@, port),
{
    let mut out = string_from("v=0\r\no=vos-rs 123456 123456 IN IP4 ");
    push_str(&mut out, media_addr);
    push_str(&mut out, "\r\ns=-\r\nc=IN IP4 ");
    push_str(&mut out, media_addr);
    push_str(&mut out, "\r\nt=0 0\r\nm=audio ");
    push_dec(&mut out, port as u64);
    push_str(
        &mut out,
        " RTP/AVP 0 8 101\r\na=rtpmap:0 PCMU/8000\r\na=rtpmap:8 PCMA/8000\r\na=rtpmap:101 telephone-event/8000\r\na=fmtp:101 0-16\r\na=sendrecv\r\n",
    );
    out
}

/// The JSON a menu webhook sends: `call_id`, `callee`, `caller` and the
/// action's target as `dtmf_key`, keys in ascending order.
pub open spec fn webhook_payload_spec(
    call_id: Seq<char>,
    dtmf_key: Seq<char>,
    caller: Seq<char>,
    callee: Seq<char>,
) -> JsonView {
    JsonView::Object(
        seq![
            ("call_id"@, JsonView::Str(call_id)),
            ("callee"@, JsonView::Str(callee)),
            ("caller"@, JsonView::Str(caller)),
            ("dtmf_key"@, JsonView::Str(dtmf_key)),
        ],
    )
}

pub fn menu_webhook_payload(call_id: &str, dtmf_key: &str, caller: &str, callee: &str) -> (r: JsonValue)
    ensures
        r@ == webhook_payload_spec(call_id@, dtmf_key@, caller@, callee@),
{
    let mut members: Vec<(String, JsonValue)> = Vec::new();
    members.push((string_from("call_id"), JsonValue::String(string_from(call_id))));
    members.push((string_from("callee"), JsonValue::String(string_from(callee))));
    members.push((string_from("caller"), JsonValue::String(string_from(caller))));
    members.push((string_from("dtmf_key"), JsonValue::String(string_from(dtmf_key))));
    proof {
        crate::ivr::json::lemma_jview_members(members@);
        assert(crate::ivr::json::jview_members(members@) =~= seq![
            ("call_id"@, JsonView::Str(call_id@)),
            ("callee"@, JsonView::Str(callee@)),
            ("caller"@, JsonView::Str(caller@)),
            ("dtmf_key"@, JsonView::Str(dtmf_key@)),
        ]);
    }
    JsonValue::Object(members)
}

// ---------------------------------------------------------------------------
// Taking a call into the local IVR
// ---------------------------------------------------------------------------

/// Why a call for the local IVR is refused.
#[derive(PartialEq, Eq, Structural, Debug, Clone, Copy)]
pub enum IvrSetupFailure {
    /// No relay port could be allocated.
    MediaAllocation,
    /// The caller's SDP did not parse.
    SdpParsing,
    /// The caller's SDP names no usable address.
    SdpAddress,
    /// The relay could not be pointed at the caller.
    MediaSetup,
}

impl IvrSetupFailure {
    pub fn status(&self) -> (r: u16)
        ensures
            r == (if *self is MediaAllocation || *self is MediaSetup {
                500u16
            } else {
                400u16
            }),
    {
        match self {
            IvrSetupFailure::MediaAllocation | IvrSetupFailure::MediaSetup => 500,
            _ => 400,
        }
    }

    pub fn reason(&self) -> (r: &'static str)
        ensures
            r@ == match *self {
                IvrSetupFailure::MediaAllocation => "Internal Server Error - Media Allocation Failed"@,
                IvrSetupFailure::SdpParsing => "Bad Request - SDP Parsing Failed"@,
                IvrSetupFailure::SdpAddress => "Bad Request - Invalid SDP Address"@,
                IvrSetupFailure::MediaSetup => "Internal Server Error - Media Setup Failed"@,
            },
    {
        match self {
            IvrSetupFailure::MediaAllocation => "Internal Server Error - Media Allocation Failed",
            IvrSetupFailure::SdpParsing => "Bad Request - SDP Parsing Failed",
            IvrSetupFailure::SdpAddress => "Bad Request - Invalid SDP Address",
            IvrSetupFailure::MediaSetup => "Internal Server Error - Media Setup Failed",
        }
    }
}

#[derive(PartialEq, Eq, Structural, Debug, Clone, Copy)]
pub enum IvrSetupStage {
    Allocate,
    ReadSdp,
    SetTarget,
    FindMenu,
    Done,
}

/// The answer to what the setup asked last.
#[derive(PartialEq, Eq, Structural, Debug, Clone, Copy)]
pub enum IvrSetupEvent {
    Allocated { ok: bool },
    /// Whether the caller's SDP parsed, and whether its address is usable.
    SdpRead { parsed: bool, address_ok: bool },
    TargetSet { ok: bool },
    /// Whether the IVR menu exists, and whether its loop can be started.
    MenuLooked { found: bool, can_run: bool },
}

/// What the setup does next.
#[derive(PartialEq, Eq, Structural, Debug, Clone, Copy)]
pub enum IvrSetupAction {
    /// Answer with the failure's status and reason; release the relay when
    /// one was allocated.
    Refuse { failure: IvrSetupFailure, release_relay: bool },
    ReadCallerSdp,
    SetRelayTarget,
    /// Keep the session and look the menu up.
    FindMenu,
    /// Answer `200 OK` with `transfer_sdp_offer` from the relay port and the
    /// `answer_headers` for the call id; run the menu loop when `run_menu`.
    Answer { run_menu: bool },
    Ignore,
}

pub open spec fn ivr_setup_spec(stage: IvrSetupStage, e: IvrSetupEvent) -> (IvrSetupStage, IvrSetupAction) {
    match (stage, e) {
        (IvrSetupStage::Allocate, IvrSetupEvent::Allocated { ok }) => if ok {
            (IvrSetupStage::ReadSdp, IvrSetupAction::ReadCallerSdp)
        } else {
            (IvrSetupStage::Done, IvrSetupAction::Refuse { failure: IvrSetupFailure::MediaAllocation, release_relay: false })
        },
        (IvrSetupStage::ReadSdp, IvrSetupEvent::SdpRead { parsed, address_ok }) => if !parsed {
            (IvrSetupStage::Done, IvrSetupAction::Refuse { failure: IvrSetupFailure::SdpParsing, release_relay: true })
        } else if !address_ok {
            (IvrSetupStage::Done, IvrSetupAction::Refuse { failure: IvrSetupFailure::SdpAddress, release_relay: true })
        } else {
            (IvrSetupStage::SetTarget, IvrSetupAction::SetRelayTarget)
        },
        (IvrSetupStage::SetTarget, IvrSetupEvent::TargetSet { ok }) => if ok {
            (IvrSetupStage::FindMenu, IvrSetupAction::FindMenu)
        } else {
            (IvrSetupStage::Done, IvrSetupAction::Refuse { failure: IvrSetupFailure::MediaSetup, release_relay: true })
        },
        (IvrSetupStage::FindMenu, IvrSetupEvent::MenuLooked { found, can_run }) => (
            IvrSetupStage::Done,
            IvrSetupAction::Answer { run_menu: found && can_run },
        ),
        _ => (stage, IvrSetupAction::Ignore),
    }
}

/// One step of taking a call into the local IVR: a relay port, the
/// caller's SDP and its address, the relay target, then the answer, with
/// the menu loop when the menu exists.  A failure after the allocation
/// releases the relay.
pub fn ivr_setup_step(stage: IvrSetupStage, event: IvrSetupEvent) -> (r: (IvrSetupStage, IvrSetupAction))
    ensures
        r == ivr_setup_spec(stage, event),
{
    match (stage, event) {
        (IvrSetupStage::Allocate, IvrSetupEvent::Allocated { ok }) => if ok {
            (IvrSetupStage::ReadSdp, IvrSetupAction::ReadCallerSdp)
        } else {
            (IvrSetupStage::Done, IvrSetupAction::Refuse { failure: IvrSetupFailure::MediaAllocation, release_relay: false })
        },
        (IvrSetupStage::ReadSdp, IvrSetupEvent::SdpRead { parsed, address_ok }) => if !parsed {
            (IvrSetupStage::Done, IvrSetupAction::Refuse { failure: IvrSetupFailure::SdpParsing, release_relay: true })
        } else if !address_ok {
            (IvrSetupStage::Done, IvrSetupAction::Refuse { failure: IvrSetupFailure::SdpAddress, release_relay: true })
        } else {
            (IvrSetupStage::SetTarget, IvrSetupAction::SetRelayTarget)
        },
        (IvrSetupStage::SetTarget, IvrSetupEvent::TargetSet { ok }) => if ok {
            (IvrSetupStage::FindMenu, IvrSetupAction::FindMenu)
        } else {
            (IvrSetupStage::Done, IvrSetupAction::Refuse { failure: IvrSetupFailure::MediaSetup, release_relay: true })
        },
        (IvrSetupStage::FindMenu, IvrSetupEvent::MenuLooked { found, can_run }) => (
            IvrSetupStage::Done,
            IvrSetupAction::Answer { run_menu: found && can_run },
        ),
        _ => (stage, IvrSetupAction::Ignore),
    }
}

} // verus!
