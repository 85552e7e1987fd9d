//! Basic nodes: start, hangup, prompt and collect_dtmf / menu.
use vstd::prelude::*;
use crate::ivr::executors::{
    cfg_object, cfg_str, cfg_str_or, cfg_u64, config_str, config_str_or, config_u64, continue_to,
    render, same_but_vars,
};
use crate::ivr::json::{
    jas_bool, jget, json_as_bool, json_clone, json_get, jview_members, lemma_jview_members,
    JsonValue, JsonView,
};
use crate::ivr::types::{vars_set, IvrExecutionContext, NodeExecuteResult, ResultView, TopologyNode};
use crate::text::{chars_of, push_str, str_eq};

verus! {

/// `read_str_config`: the string member `key` unless missing, not a string
/// or empty.
pub open spec fn nonempty_cfg_str(c: JsonView, key: Seq<char>) -> Option<Seq<char>> {
    match cfg_str(c, key) {
        Some(s) => if s.len() > 0 {
            Some(s)
        } else {
            None
        },
        None => None,
    }
}

pub fn read_str_config(node: &TopologyNode, key: &str) -> (r: Option<String>)
    ensures
        match r {
            Some(s) => nonempty_cfg_str(node.config@, key@) == Some(s@),
            None => nonempty_cfg_str(node.config@, key@) is None,
        },
{
    match config_str(node, key) {
        Some(s) => if !s.as_str().is_empty() {
            Some(s.clone())
        } else {
            None
        },
        None => None,
    }
}

/// `read_bool_config`: the boolean member `key`, or `default`.
pub open spec fn cfg_bool_or(c: JsonView, key: Seq<char>, default: bool) -> bool {
    match jget(c, key) {
        Some(v) => match jas_bool(v) {
            Some(b) => b,
            None => default,
        },
        None => default,
    }
}

pub fn read_bool_config(node: &TopologyNode, key: &str, default: bool) -> (r: bool)
    ensures
        r == cfg_bool_or(node.config@, key@, default),
{
    match json_get(&node.config, key) {
        Some(v) => match json_as_bool(v) {
            Some(b) => b,
            None => default,
        },
        None => default,
    }
}

// ---------------------------------------------------------------------------
// start / hangup
// ---------------------------------------------------------------------------

/// The variables after setting the first `n` members of `ms` in order.
pub open spec fn set_plain(
    vars: Seq<(Seq<char>, JsonView)>,
    ms: Seq<(Seq<char>, JsonView)>,
    n: int,
) -> Seq<(Seq<char>, JsonView)>
    decreases n,
{
    if n <= 0 || n > ms.len() {
        vars
    } else {
        vars_set(set_plain(vars, ms, n - 1), ms[n - 1].0, ms[n - 1].1)
    }
}

/// The DID after a start node: its non-empty `did`, else unchanged.
pub open spec fn start_did(c: JsonView, did: Seq<char>) -> Seq<char> {
    match nonempty_cfg_str(c, "did"@) {
        Some(d) => d,
        None => did,
    }
}

/// The variables after a start node: the members of its `variables` object
/// set in order.
pub open spec fn start_vars(c: JsonView, vars: Seq<(Seq<char>, JsonView)>) -> Seq<(Seq<char>, JsonView)> {
    match cfg_object(c, "variables"@) {
        Some(ms) => set_plain(vars, ms, ms.len() as int),
        None => vars,
    }
}

/// Executes a start or hangup node.  A start node takes its `did` (when
/// non-empty) and initial `variables`, then port `default`; a hangup node
/// hangs up with `reason` (default `IVR Hangup`); any other type is an error.
pub fn execute(node: &TopologyNode, context: &mut IvrExecutionContext) -> (r: NodeExecuteResult)
    ensures
        node.node_type@ == "start"@ ==> {
            &&& r@ == ResultView::Continue("default"@)
            &&& final(context).did@ == start_did(node.config@, old(context).did@)
            &&& final(context).vars() == start_vars(node.config@, old(context).vars())
            &&& final(context).call_id == old(context).call_id
            &&& final(context).caller_id == old(context).caller_id
            &&& final(context).current_node_id == old(context).current_node_id
            &&& final(context).loop_counters == old(context).loop_counters
            &&& final(context).collected_dtmf == old(context).collected_dtmf
            &&& final(context).last_webhook_response == old(context).last_webhook_response
        },
        node.node_type@ != "start"@ ==> *final(context) == *old(context),
        node.node_type@ != "start"@ && node.node_type@ == "hangup"@ ==> r@ == ResultView::Hangup(
            cfg_str_or(node.config@, "reason"@, "IVR Hangup"@),
        ),
        node.node_type@ != "start"@ && node.node_type@ != "hangup"@ ==> r@ == ResultView::Error(
            "basic::execute 不支持的节点类型: "@ + node.node_type@,
        ),
{
    if str_eq(node.node_type.as_str(), "start") {
        execute_start(node, context)
    } else if str_eq(node.node_type.as_str(), "hangup") {
        NodeExecuteResult::Hangup { reason: config_str_or(node, "reason", "IVR Hangup") }
    } else {
        let mut message = String::new();
        push_str(&mut message, "basic::execute 不支持的节点类型: ");
        push_str(&mut message, node.node_type.as_str());
        proof {
            reveal_strlit("");
        }
        assert(message@ =~= "basic::execute 不支持的节点类型: "@ + node.node_type@);
        NodeExecuteResult::Error { message }
    }
}

fn execute_start(node: &TopologyNode, context: &mut IvrExecutionContext) -> (r: NodeExecuteResult)
    ensures
        r@ == ResultView::Continue("default"@),
        final(context).did@ == start_did(node.config@, old(context).did@),
        final(context).vars() == start_vars(node.config@, old(context).vars()),
        final(context).call_id == old(context).call_id,
        final(context).caller_id == old(context).caller_id,
        final(context).current_node_id == old(context).current_node_id,
        final(context).loop_counters == old(context).loop_counters,
        final(context).collected_dtmf == old(context).collected_dtmf,
        final(context).last_webhook_response == old(context).last_webhook_response,
{
    if let Some(did) = read_str_config(node, "did") {
        context.did = did;
    }
    let ghost after_did = *context;
    match json_get(&node.config, "variables") {
        Some(JsonValue::Object(members)) => {
            proof {
                lemma_jview_members(members@);
            }
            let ghost ms = jview_members(members@);
            let mut i: usize = 0;
            while i < members.len()
                invariant
                    ms == jview_members(members@),
                    ms.len() == members@.len(),
                    forall|j: int|
                        0 <= j < members@.len() ==> #[trigger] ms[j] == (
                            members@[j].0@,
                            members@[j].1@,
                        ),
                    0 <= i <= members@.len(),
                    same_but_vars(*context, after_did),
                    context.vars() == set_plain(after_did.vars(), ms, i as int),
                decreases members@.len() - i,
            {
                let value = json_clone(&members[i].1);
                context.set_var(members[i].0.as_str(), value);
                i = i + 1;
            }
        },
        _ => {},
    }
    continue_to("default")
}

// ---------------------------------------------------------------------------
// prompt
// ---------------------------------------------------------------------------

/// What a prompt node asks the media layer to play.
pub struct PromptPlayback {
    pub path: String,
    pub loop_playback: bool,
    pub interruptible: bool,
}

/// The playback a prompt node asks for: its non-empty `audio_file`,
/// rendered, with `loop` (default off) and `interruptible` (default on).
/// Without an audio file the node is skipped: port `default`.
pub fn prompt_playback(node: &TopologyNode, context: &IvrExecutionContext) -> (r: Result<
    PromptPlayback,
    NodeExecuteResult,
>)
    ensures
        match nonempty_cfg_str(node.config@, "audio_file"@) {
            Some(f) => r matches Ok(p) && p.path@ == render(f, context.vars()) && p.loop_playback
                == cfg_bool_or(node.config@, "loop"@, false) && p.interruptible == cfg_bool_or(
                node.config@,
                "interruptible"@,
                true,
            ),
            None => r matches Err(e) && e@ == ResultView::Continue("default"@),
        },
{
    match read_str_config(node, "audio_file") {
        Some(file) => {
            let loop_playback = read_bool_config(node, "loop", false);
            let interruptible = read_bool_config(node, "interruptible", true);
            let path = context.render_template(file.as_str());
            Ok(PromptPlayback { path, loop_playback, interruptible })
        },
        None => Err(continue_to("default")),
    }
}

/// The node's result once the media layer has answered a playback request:
/// port `default`, or an error naming the failure.
pub fn playback_result(outcome: Result<(), String>) -> (r: NodeExecuteResult)
    ensures
        match outcome {
            Ok(_) => r@ == ResultView::Continue("default"@),
            Err(e) => r@ == ResultView::Error("播放音频失败: "@ + e@),
        },
{
    match outcome {
        Ok(_) => continue_to("default"),
        Err(e) => {
            let mut message = String::new();
            push_str(&mut message, "播放音频失败: ");
            push_str(&mut message, e.as_str());
            proof {
                reveal_strlit("");
            }
            assert(message@ =~= "播放音频失败: "@ + e@);
            NodeExecuteResult::Error { message }
        },
    }
}

// ---------------------------------------------------------------------------
// collect_dtmf / menu
// ---------------------------------------------------------------------------

/// `max_digits` cut to 8 bits (default 1), then clamped to 1..=32.
pub open spec fn max_digits_of(c: JsonView) -> u8 {
    let m: u8 = match cfg_u64(c, "max_digits"@) {
        Some(v) => v as u8,
        None => 1,
    };
    if m < 1 {
        1
    } else if m > 32 {
        32
    } else {
        m
    }
}

/// `timeout_secs` cut to 32 bits, or `default`.
pub open spec fn timeout_of(c: JsonView, default: u32) -> u32 {
    match cfg_u64(c, "timeout_secs"@) {
        Some(v) => v as u32,
        None => default,
    }
}

/// The first character of `terminator`, unless it is NUL.
pub open spec fn terminator_of(c: JsonView) -> Option<char> {
    match cfg_str(c, "terminator"@) {
        Some(s) => if s.len() > 0 && s[0] != '\0' {
            Some(s[0])
        } else {
            None
        },
        None => None,
    }
}

/// The result of a collect_dtmf or menu node: wait for DTMF digits.
pub open spec fn collect_result(c: JsonView) -> ResultView {
    ResultView::WaitForDtmf(max_digits_of(c), timeout_of(c, 5), terminator_of(c))
}

/// Executes a collect_dtmf or menu node.
pub fn execute_collect_input(node: &TopologyNode, context: &IvrExecutionContext) -> (r: NodeExecuteResult)
    ensures
        r@ == collect_result(node.config@),
{
    let m: u8 = match config_u64(node, "max_digits") {
        Some(v) => v as u8,
        None => 1,
    };
    let max_digits: u8 = if m < 1 {
        1
    } else if m > 32 {
        32
    } else {
        m
    };
    let timeout_secs: u32 = match config_u64(node, "timeout_secs") {
        Some(v) => v as u32,
        None => 5,
    };
    let terminator = match config_str(node, "terminator") {
        Some(s) => {
            let cs = chars_of(s.as_str());
            if cs.len() > 0 && cs[0] != '\0' {
                Some(cs[0])
            } else {
                None
            }
        },
        None => None,
    };
    NodeExecuteResult::WaitForDtmf { max_digits, timeout_secs, terminator }
}

} // verus!
