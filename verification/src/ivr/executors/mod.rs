//! Node executors.  Each reads the node's configuration and the call
//! context and says what the engine does next; where a node needs outside
//! work (playback, recording, HTTP, speech), its executor is split into the
//! decision before that work and the result after it.
use vstd::prelude::*;
use crate::ivr::json::{jas_str, jas_u64, jget, json_as_str, json_as_u64, json_get, JsonView};
use crate::ivr::types::{
    render_vars, IvrExecutionContext, NodeExecuteResult, ResultView, TopologyNode,
};
use crate::ivr::executors::basic::{collect_result, start_did, start_vars, timeout_of};
use crate::ivr::executors::flow::{
    condition_result, counter_of, counters_bump, counters_view, loop_id_of, loop_max_of,
    route_result, set_rendered,
};
use crate::ivr::executors::media::transfer_result;
use crate::ivr::types::{node_type_of, IvrNodeType};
use crate::text::{push_str, string_from};

pub mod basic;
pub mod flow;
pub mod media;
pub mod voice;
pub mod ai;

verus! {


// ---------------------------------------------------------------------------
// Reading the configuration
// ---------------------------------------------------------------------------

/// `config.get(key).and_then(as_str)`.
pub open spec fn cfg_str(c: JsonView, key: Seq<char>) -> Option<Seq<char>> {
    match jget(c, key) {
        Some(v) => jas_str(v),
        None => None,
    }
}

/// `config.get(key).and_then(as_u64)`.
pub open spec fn cfg_u64(c: JsonView, key: Seq<char>) -> Option<u64> {
    match jget(c, key) {
        Some(v) => jas_u64(v),
        None => None,
    }
}

/// `config.get(key).and_then(as_str).unwrap_or(default)`.
pub open spec fn cfg_str_or(c: JsonView, key: Seq<char>, default: Seq<char>) -> Seq<char> {
    match cfg_str(c, key) {
        Some(s) => s,
        None => default,
    }
}

/// A template with every context variable substituted.
pub open spec fn render(t: Seq<char>, vars: Seq<(Seq<char>, JsonView)>) -> Seq<char> {
    render_vars(t, vars, vars.len() as int)
}

/// The string member `key` of the node's configuration.
pub fn config_str<'a>(node: &'a TopologyNode, key: &str) -> (r: Option<&'a String>)
    ensures
        match r {
            Some(s) => cfg_str(node.config@, key@) == Some(s@),
            None => cfg_str(node.config@, key@) is None,
        },
{
    match json_get(&node.config, key) {
        Some(v) => json_as_str(v),
        None => None,
    }
}

/// The non-negative integer member `key` of the node's configuration.
pub fn config_u64(node: &TopologyNode, key: &str) -> (r: Option<u64>)
    ensures
        r == cfg_u64(node.config@, key@),
{
    match json_get(&node.config, key) {
        Some(v) => json_as_u64(v),
        None => None,
    }
}

/// The string member `key`, or `default` where it is missing or not a string.
pub fn config_str_or(node: &TopologyNode, key: &str, default: &str) -> (r: String)
    ensures
        r@ == cfg_str_or(node.config@, key@, default@),
{
    match config_str(node, key) {
        Some(s) => s.clone(),
        None => string_from(default),
    }
}

pub fn continue_to(port: &str) -> (r: NodeExecuteResult)
    ensures
        r@ == ResultView::Continue(port@),
{
    NodeExecuteResult::Continue { port: string_from(port) }
}

pub fn error_with(message: &str) -> (r: NodeExecuteResult)
    ensures
        r@ == ResultView::Error(message@),
{
    NodeExecuteResult::Error { message: string_from(message) }
}

/// The members of the configuration's `variables` object, if it is one.
pub open spec fn cfg_object(c: JsonView, key: Seq<char>) -> Option<Seq<(Seq<char>, JsonView)>> {
    match jget(c, key) {
        Some(JsonView::Object(ms)) => Some(ms),
        _ => None,
    }
}

/// Everything of the context but its variables is the same.
pub open spec fn same_but_vars(a: IvrExecutionContext, b: IvrExecutionContext) -> bool {
    &&& a.call_id == b.call_id
    &&& a.caller_id == b.caller_id
    &&& a.did == b.did
    &&& a.current_node_id == b.current_node_id
    &&& a.loop_counters == b.loop_counters
    &&& a.collected_dtmf == b.collected_dtmf
    &&& a.last_webhook_response == b.last_webhook_response
}


// ---------------------------------------------------------------------------
// Dispatch
// ---------------------------------------------------------------------------

/// Whether a node of this type needs outside work (playback, recording,
/// HTTP or speech synthesis) before its result is known.
pub open spec fn needs_outside_work(t: IvrNodeType) -> bool {
    t is Prompt || t is HttpWebhook || t is Tts || t is AiAgent || t is Voicemail || t is Record
}

/// Executes a node whose result needs no outside work, dispatching on its
/// type; for the other node types it does nothing and returns `None`.  A
/// type string that names no node type is an error.
pub fn execute_local(node: &TopologyNode, context: &mut IvrExecutionContext) -> (r: Option<NodeExecuteResult>)
    requires
        node_type_of(node.node_type@) == Some(IvrNodeType::Loop) ==> counter_of(
            counters_view(old(context).loop_counters@),
            loop_id_of(node.config@, node.id@),
        ) < u32::MAX,
    ensures
        ({
            let c = node.config@;
            let vars = old(context).vars();
            match node_type_of(node.node_type@) {
                None => r matches Some(x) && x@ == ResultView::Error(
                    "未知节点类型: "@ + node.node_type@,
                ) && *final(context) == *old(context),
                Some(t) => if needs_outside_work(t) {
                    r is None && *final(context) == *old(context)
                } else {
                    r is Some && match t {
                        IvrNodeType::Start => {
                            &&& r->0@ == ResultView::Continue("default"@)
                            &&& final(context).did@ == start_did(c, old(context).did@)
                            &&& final(context).vars() == start_vars(c, vars)
                            &&& final(context).call_id == old(context).call_id
                            &&& final(context).caller_id == old(context).caller_id
                            &&& final(context).current_node_id == old(context).current_node_id
                            &&& final(context).loop_counters == old(context).loop_counters
                            &&& final(context).collected_dtmf == old(context).collected_dtmf
                            &&& final(context).last_webhook_response
                                == old(context).last_webhook_response
                        },
                        IvrNodeType::SetVar => {
                            &&& r->0@ == ResultView::Continue("default"@)
                            &&& same_but_vars(*final(context), *old(context))
                            &&& final(context).vars() == match cfg_object(c, "variables"@) {
                                Some(ms) => set_rendered(vars, ms, ms.len() as int),
                                None => vars,
                            }
                        },
                        IvrNodeType::Loop => {
                            let k = loop_id_of(c, node.id@);
                            let before = counters_view(old(context).loop_counters@);
                            &&& counters_view(final(context).loop_counters@) == counters_bump(
                                before,
                                k,
                            )
                            &&& r->0@ == ResultView::Continue(
                                if counter_of(before, k) + 1 <= loop_max_of(c) {
                                    "loop"@
                                } else {
                                    "exit"@
                                },
                            )
                            &&& final(context).variables == old(context).variables
                            &&& final(context).call_id == old(context).call_id
                            &&& final(context).caller_id == old(context).caller_id
                            &&& final(context).did == old(context).did
                            &&& final(context).current_node_id == old(context).current_node_id
                            &&& final(context).collected_dtmf == old(context).collected_dtmf
                            &&& final(context).last_webhook_response
                                == old(context).last_webhook_response
                        },
                        _ => *final(context) == *old(context) && match t {
                            IvrNodeType::Hangup => r->0@ == ResultView::Hangup(
                                cfg_str_or(c, "reason"@, "IVR Hangup"@),
                            ),
                            IvrNodeType::Condition => r->0@ == condition_result(c, vars),
                            IvrNodeType::Route => r->0@ == route_result(c, vars),
                            IvrNodeType::CollectDtmf => r->0@ == collect_result(c),
                            IvrNodeType::Menu => r->0@ == collect_result(c),
                            IvrNodeType::Asr => r->0@ == ResultView::WaitForAsr(timeout_of(c, 10)),
                            _ => r->0@ == transfer_result(node.node_type@, c, vars),
                        },
                    }
                },
            }
        }),
{
    proof {
        reveal_strlit("start");
        reveal_strlit("hangup");
        reveal_strlit("transfer_ext");
        reveal_strlit("transfer_pstn");
        reveal_strlit("transfer_queue");
    }
    match IvrNodeType::from_str(node.node_type.as_str()) {
        None => {
            let mut message = string_from("未知节点类型: ");
            push_str(&mut message, node.node_type.as_str());
            assert(message@ =~= "未知节点类型: "@ + node.node_type@);
            Some(NodeExecuteResult::Error { message })
        },
        Some(t) => match t {
            IvrNodeType::Start | IvrNodeType::Hangup => Some(basic::execute(node, context)),
            IvrNodeType::CollectDtmf | IvrNodeType::Menu => Some(
                basic::execute_collect_input(node, context),
            ),
            IvrNodeType::Condition => Some(flow::execute_condition(node, context)),
            IvrNodeType::Route => Some(flow::execute_route(node, context)),
            IvrNodeType::SetVar => Some(flow::execute_set_var(node, context)),
            IvrNodeType::Loop => Some(flow::execute_loop(node, context)),
            IvrNodeType::Asr => Some(voice::execute_asr(node, context)),
            IvrNodeType::TransferExt | IvrNodeType::TransferPstn | IvrNodeType::TransferQueue => {
                Some(media::execute_transfer(node, context))
            },
            _ => None,
        },
    }
}

} // verus!
