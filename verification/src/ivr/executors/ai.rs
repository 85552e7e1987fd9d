//! The ai_agent node: one chat call to the API server's LLM endpoint, whose
//! reply becomes the variable `ai_reply`.
use vstd::prelude::*;
use crate::ivr::executors::{cfg_str_or, cfg_u64, config_str_or, config_u64, continue_to, error_with, render};
use crate::ivr::executors::same_but_vars;
use crate::ivr::json::{jas_str, jget, json_as_str, json_get, JsonValue, JsonView};
use crate::ivr::types::{vars_set, IvrExecutionContext, NodeExecuteResult, ResultView, TopologyNode};
use crate::text::{push_str, string_from};

verus! {

/// The chat call an ai_agent node asks for.
pub struct AiRequest {
    /// The API server's chat endpoint.
    pub endpoint: String,
    /// `{"message": .., "stream": false, "system_prompt": ..}`.
    pub body: JsonValue,
    pub timeout_secs: u64,
    pub max_turns: u32,
    pub model: String,
}

/// The JSON body of the chat call.
pub open spec fn chat_body(message: Seq<char>, system_prompt: Seq<char>) -> JsonView {
    JsonView::Object(
        seq![
            ("message"@, JsonView::Str(message)),
            ("stream"@, JsonView::Bool(false)),
            ("system_prompt"@, JsonView::Str(system_prompt)),
        ],
    )
}

/// The chat call of an ai_agent node: its rendered `prompt` with
/// `system_prompt` (default: a telephone customer-service assistant), sent
/// to `<api_server_url>/api/v1/copilot/chat` with `timeout_secs` (default
/// 30); `max_turns` (default 5) and `model` (default `default`) are carried
/// along.  Without a prompt the node fails.
pub fn ai_request(node: &TopologyNode, context: &IvrExecutionContext, api_server_url: &str) -> (r:
    Result<AiRequest, NodeExecuteResult>)
    ensures
        ({
            let c = node.config@;
            let prompt = cfg_str_or(c, "prompt"@, ""@);
            if prompt.len() == 0 {
                r matches Err(e) && e@ == ResultView::Error("ai_agent 节点未配置 prompt"@)
            } else {
                r matches Ok(q) && q.endpoint@ == api_server_url@ + "/api/v1/copilot/chat"@
                    && q.body@ == chat_body(
                    render(prompt, context.vars()),
                    cfg_str_or(c, "system_prompt"@, "你是一个电话客服助手"@),
                ) && q.timeout_secs == match cfg_u64(c, "timeout_secs"@) {
                    Some(v) => v,
                    None => 30,
                } && q.max_turns == match cfg_u64(c, "max_turns"@) {
                    Some(v) => v as u32,
                    None => 5,
                } && q.model@ == cfg_str_or(c, "model"@, "default"@)
            }
        }),
{
    let prompt = config_str_or(node, "prompt", "");
    if prompt.as_str().is_empty() {
        return Err(error_with("ai_agent 节点未配置 prompt"));
    }
    let user_prompt = context.render_template(prompt.as_str());
    let system_prompt = config_str_or(node, "system_prompt", "你是一个电话客服助手");
    let max_turns: u32 = match config_u64(node, "max_turns") {
        Some(v) => v as u32,
        None => 5,
    };
    let model = config_str_or(node, "model", "default");
    let timeout_secs: u64 = match config_u64(node, "timeout_secs") {
        Some(v) => v,
        None => 30,
    };
    let mut endpoint = string_from(api_server_url);
    push_str(&mut endpoint, "/api/v1/copilot/chat");
    let mut members: Vec<(String, JsonValue)> = Vec::new();
    members.push((string_from("message"), JsonValue::String(user_prompt)));
    members.push((string_from("stream"), JsonValue::Bool(false)));
    members.push((string_from("system_prompt"), JsonValue::String(system_prompt)));
    let body = JsonValue::Object(members);
    proof {
        crate::ivr::json::lemma_jview_members(members@);
        assert(crate::ivr::json::jview_members(members@) =~= seq![
            ("message"@, JsonView::Str(user_prompt@)),
            ("stream"@, JsonView::Bool(false)),
            ("system_prompt"@, JsonView::Str(system_prompt@)),
        ]);
    }
    Ok(AiRequest { endpoint, body, timeout_secs, max_turns, model })
}

/// The reply text of an LLM response: the first of the members `reply`,
/// `message`, `content` and `analysis_report` that is present, if it is a
/// string; empty otherwise.
pub open spec fn reply_of(v: JsonView) -> Seq<char> {
    let found = match jget(v, "reply"@) {
        Some(x) => Some(x),
        None => match jget(v, "message"@) {
            Some(x) => Some(x),
            None => match jget(v, "content"@) {
                Some(x) => Some(x),
                None => jget(v, "analysis_report"@),
            },
        },
    };
    match found {
        Some(x) => match jas_str(x) {
            Some(s) => s,
            None => ""@,
        },
        None => ""@,
    }
}

pub fn ai_reply(response: &JsonValue) -> (r: String)
    ensures
        r@ == reply_of(response@),
{
    let found = match json_get(response, "reply") {
        Some(x) => Some(x),
        None => match json_get(response, "message") {
            Some(x) => Some(x),
            None => match json_get(response, "content") {
                Some(x) => Some(x),
                None => json_get(response, "analysis_report"),
            },
        },
    };
    match found {
        Some(x) => match json_as_str(x) {
            Some(s) => s.clone(),
            None => string_from(""),
        },
        None => string_from(""),
    }
}

/// How the chat call of an ai_agent node ended.
pub enum AiOutcome {
    ClientFailed(String),
    RequestFailed(String),
    /// The server answered with this non-success status.
    HttpStatus(String),
    /// The response body was not JSON.
    ResponseInvalid(String),
    Response(JsonValue),
}

/// The result of an ai_agent node: on a response its reply is set as
/// `ai_reply` and the node takes port `default`; each failure is an error
/// naming it.
pub fn ai_result(context: &mut IvrExecutionContext, outcome: AiOutcome) -> (r: NodeExecuteResult)
    ensures
        match outcome {
            AiOutcome::Response(v) => r@ == ResultView::Continue("default"@) && final(context).vars()
                == vars_set(old(context).vars(), "ai_reply"@, JsonView::Str(reply_of(v@))),
            AiOutcome::ClientFailed(e) => r@ == ResultView::Error("LLM client 构建失败: "@ + e@)
                && *final(context) == *old(context),
            AiOutcome::RequestFailed(e) => r@ == ResultView::Error("LLM 请求失败: "@ + e@)
                && *final(context) == *old(context),
            AiOutcome::HttpStatus(s) => r@ == ResultView::Error("LLM 调用失败: "@ + s@)
                && *final(context) == *old(context),
            AiOutcome::ResponseInvalid(e) => r@ == ResultView::Error("LLM 响应解析失败: "@ + e@)
                && *final(context) == *old(context),
        },
        same_but_vars(*final(context), *old(context)),
{
    proof {
        reveal_strlit("");
    }
    match outcome {
        AiOutcome::Response(v) => {
            let reply = ai_reply(&v);
            context.set_var("ai_reply", JsonValue::String(reply));
            continue_to("default")
        },
        AiOutcome::ClientFailed(e) => {
            let mut message = string_from("LLM client 构建失败: ");
            push_str(&mut message, e.as_str());
            assert(message@ =~= "LLM client 构建失败: "@ + e@);
            NodeExecuteResult::Error { message }
        },
        AiOutcome::RequestFailed(e) => {
            let mut message = string_from("LLM 请求失败: ");
            push_str(&mut message, e.as_str());
            assert(message@ =~= "LLM 请求失败: "@ + e@);
            NodeExecuteResult::Error { message }
        },
        AiOutcome::HttpStatus(s) => {
            let mut message = string_from("LLM 调用失败: ");
            push_str(&mut message, s.as_str());
            assert(message@ =~= "LLM 调用失败: "@ + s@);
            NodeExecuteResult::Error { message }
        },
        AiOutcome::ResponseInvalid(e) => {
            let mut message = string_from("LLM 响应解析失败: ");
            push_str(&mut message, e.as_str());
            assert(message@ =~= "LLM 响应解析失败: "@ + e@);
            NodeExecuteResult::Error { message }
        },
    }
}

} // verus!
