//! Transfer nodes (transfer_ext, transfer_pstn, transfer_queue) and the
//! record / voicemail nodes.
use vstd::prelude::*;
use crate::ivr::executors::{cfg_str_or, cfg_u64, config_str_or, config_u64, continue_to, render};
use crate::ivr::json::JsonView;
use crate::ivr::types::{IvrExecutionContext, NodeExecuteResult, ResultView, TopologyNode};
use crate::text::{push_str, str_eq, string_from};

verus! {

/// The transfer kind a transfer node's type stands for.
pub open spec fn transfer_type_of(node_type: Seq<char>) -> Option<Seq<char>> {
    if node_type == "transfer_ext"@ {
        Some("extension"@)
    } else if node_type == "transfer_pstn"@ {
        Some("pstn"@)
    } else if node_type == "transfer_queue"@ {
        Some("queue"@)
    } else {
        None
    }
}

/// The result of a transfer node: a transfer of the node's kind to its
/// rendered `target`; an error for a node of another type or without a
/// target.
pub open spec fn transfer_result(
    node_type: Seq<char>,
    c: JsonView,
    vars: Seq<(Seq<char>, JsonView)>,
) -> ResultView {
    match transfer_type_of(node_type) {
        None => ResultView::Error("execute_transfer 不支持的节点类型: "@ + node_type),
        Some(kind) => {
            let t = cfg_str_or(c, "target"@, ""@);
            if t.len() == 0 {
                ResultView::Error(node_type + " 节点未配置 target"@)
            } else {
                ResultView::Transfer(render(t, vars), kind)
            }
        },
    }
}

/// Executes a transfer node.
pub fn execute_transfer(node: &TopologyNode, context: &IvrExecutionContext) -> (r: NodeExecuteResult)
    ensures
        r@ == transfer_result(node.node_type@, node.config@, context.vars()),
{
    proof {
        reveal_strlit("");
    }
    let kind = if str_eq(node.node_type.as_str(), "transfer_ext") {
        "extension"
    } else if str_eq(node.node_type.as_str(), "transfer_pstn") {
        "pstn"
    } else if str_eq(node.node_type.as_str(), "transfer_queue") {
        "queue"
    } else {
        let mut message = String::new();
        push_str(&mut message, "execute_transfer 不支持的节点类型: ");
        push_str(&mut message, node.node_type.as_str());
        assert(message@ =~= "execute_transfer 不支持的节点类型: "@ + node.node_type@);
        return NodeExecuteResult::Error { message };
    };
    let target = config_str_or(node, "target", "");
    if target.as_str().is_empty() {
        let mut message = String::new();
        push_str(&mut message, node.node_type.as_str());
        push_str(&mut message, " 节点未配置 target");
        assert(message@ =~= node.node_type@ + " 节点未配置 target"@);
        return NodeExecuteResult::Error { message };
    }
    let rendered = context.render_template(target.as_str());
    NodeExecuteResult::Transfer { target: rendered, transfer_type: string_from(kind) }
}

/// The recording limits a record / voicemail node names: `max_duration`
/// (default: the media configuration's limit) and `format` (default: the
/// media configuration's format).
pub fn record_settings(node: &TopologyNode, default_max_duration: u64, default_format: &str) -> (r: (
    u64,
    String,
))
    ensures
        r.0 == match cfg_u64(node.config@, "max_duration"@) {
            Some(v) => v,
            None => default_max_duration,
        },
        r.1@ == cfg_str_or(node.config@, "format"@, default_format@),
{
    let max_duration = match config_u64(node, "max_duration") {
        Some(v) => v,
        None => default_max_duration,
    };
    (max_duration, config_str_or(node, "format", default_format))
}

/// The result of a record / voicemail node: port `default` when recording
/// is off or has started, an error naming the failure otherwise.
pub fn record_result(recording_enabled: bool, outcome: Result<(), String>) -> (r: NodeExecuteResult)
    ensures
        !recording_enabled ==> r@ == ResultView::Continue("default"@),
        recording_enabled ==> match outcome {
            Ok(_) => r@ == ResultView::Continue("default"@),
            Err(e) => r@ == ResultView::Error("启动录音失败: "@ + e@),
        },
{
    if !recording_enabled {
        return continue_to("default");
    }
    match outcome {
        Ok(_) => continue_to("default"),
        Err(e) => {
            let mut message = String::new();
            push_str(&mut message, "启动录音失败: ");
            push_str(&mut message, e.as_str());
            proof {
                reveal_strlit("");
            }
            assert(message@ =~= "启动录音失败: "@ + e@);
            NodeExecuteResult::Error { message }
        },
    }
}

} // verus!
