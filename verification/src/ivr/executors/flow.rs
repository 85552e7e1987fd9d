//! Flow-control nodes: condition, route, set_var, loop and http_webhook.
use vstd::prelude::*;
use crate::ivr::executors::{
    cfg_object, cfg_str_or, cfg_u64, same_but_vars, config_str_or, config_u64, continue_to, error_with, render,
};
use crate::ivr::json::{
    jget, json_clone, json_eq, json_equal, json_get, json_to_string, jview_members,
    lemma_jview_members, members_get, value_text, JsonValue, JsonView,
};
use crate::ivr::order::{json_order, lemma_order_antisymmetric, order_of};
use crate::ivr::types::{
    vars_set, IvrExecutionContext, NodeExecuteResult, ResultView, TopologyNode,
};
use crate::text::{
    chars_of, contains_seq, ends_with, exec_ends_with, exec_find_seq, exec_starts_with,
    starts_with, str_eq, string_from, to_uppercase, unicode_upper,
};

verus! {
// ---------------------------------------------------------------------------
// condition
// ---------------------------------------------------------------------------

/// Whether `actual` stands in relation `op` to `target`.  Unknown operators
/// never match.
pub open spec fn compare_spec(actual: JsonView, target: JsonView, op: Seq<char>) -> bool {
    if op == "eq"@ {
        json_equal(actual, target)
    } else if op == "ne"@ {
        !json_equal(actual, target)
    } else if op == "gt"@ {
        order_of(actual, target) == Some(1int)
    } else if op == "lt"@ {
        order_of(actual, target) == Some(-1int)
    } else if op == "contains"@ {
        contains_seq(value_text(actual), value_text(target))
    } else if op == "starts_with"@ {
        starts_with(value_text(actual), value_text(target))
    } else if op == "ends_with"@ {
        ends_with(value_text(actual), value_text(target))
    } else {
        false
    }
}

pub fn compare_values(actual: &JsonValue, target: &JsonValue, operator: &str) -> (r: bool)
    ensures
        r == compare_spec(actual@, target@, operator@),
{
    if str_eq(operator, "eq") {
        json_eq(actual, target)
    } else if str_eq(operator, "ne") {
        !json_eq(actual, target)
    } else if str_eq(operator, "gt") {
        match json_order(actual, target) {
            Some(o) => o == 1,
            None => false,
        }
    } else if str_eq(operator, "lt") {
        match json_order(actual, target) {
            Some(o) => o == -1,
            None => false,
        }
    } else if str_eq(operator, "contains") || str_eq(operator, "starts_with") || str_eq(
        operator,
        "ends_with",
    ) {
        let a = json_to_string(actual);
        let b = json_to_string(target);
        let av = chars_of(a.as_str());
        let bv = chars_of(b.as_str());
        if str_eq(operator, "contains") {
            exec_find_seq(&av, &bv, 0).is_some()
        } else if str_eq(operator, "starts_with") {
            exec_starts_with(&av, &bv)
        } else {
            exec_ends_with(&av, &bv)
        }
    } else {
        false
    }
}

/// Whether a condition node with configuration `c` matches the variables:
/// the variable named by `variable` compared by `operator` (default `eq`)
/// with `value`; with no `value` configured, a defined variable matches.
pub open spec fn condition_matches(c: JsonView, vars: Seq<(Seq<char>, JsonView)>) -> bool {
    let variable = cfg_str_or(c, "variable"@, ""@);
    let op = cfg_str_or(c, "operator"@, "eq"@);
    match (members_get(vars, variable, 0), jget(c, "value"@)) {
        (Some(a), Some(t)) => compare_spec(a, t, op),
        (Some(_), None) => true,
        _ => false,
    }
}

/// The result of a condition node: port `match` or `nomatch`.
pub open spec fn condition_result(c: JsonView, vars: Seq<(Seq<char>, JsonView)>) -> ResultView {
    ResultView::Continue(
        if condition_matches(c, vars) {
            "match"@
        } else {
            "nomatch"@
        },
    )
}

/// Executes a condition node.
pub fn execute_condition(node: &TopologyNode, context: &IvrExecutionContext) -> (r: NodeExecuteResult)
    ensures
        r@ == condition_result(node.config@, context.vars()),
{
    let variable = config_str_or(node, "variable", "");
    let operator = config_str_or(node, "operator", "eq");
    let target = json_get(&node.config, "value");
    let actual = context.get_var(variable.as_str());
    let matched = match (actual, target) {
        (Some(a), Some(t)) => compare_values(a, t, operator.as_str()),
        (Some(_), None) => true,
        _ => false,
    };
    if matched {
        continue_to("match")
    } else {
        continue_to("nomatch")
    }
}

// ---------------------------------------------------------------------------
// route
// ---------------------------------------------------------------------------

/// The result of a route node: a transfer to the rendered `target` of kind
/// `target_type` (default `extension`); an error where no target is set.
pub open spec fn route_result(c: JsonView, vars: Seq<(Seq<char>, JsonView)>) -> ResultView {
    let t = cfg_str_or(c, "target"@, ""@);
    if t.len() == 0 {
        ResultView::Error("route 节点未配置 target"@)
    } else {
        ResultView::Transfer(render(t, vars), cfg_str_or(c, "target_type"@, "extension"@))
    }
}

/// Executes a route node.
pub fn execute_route(node: &TopologyNode, context: &IvrExecutionContext) -> (r: NodeExecuteResult)
    ensures
        r@ == route_result(node.config@, context.vars()),
{
    let target_type = config_str_or(node, "target_type", "extension");
    let target = config_str_or(node, "target", "");
    if target.as_str().is_empty() {
        proof {
            reveal_strlit("");
        }
        return error_with("route 节点未配置 target");
    }
    proof {
        reveal_strlit("");
    }
    let rendered = context.render_template(target.as_str());
    NodeExecuteResult::Transfer { target: rendered, transfer_type: target_type }
}


// ---------------------------------------------------------------------------
// set_var
// ---------------------------------------------------------------------------

/// A value as set_var stores it: strings rendered against `vars`, other
/// values as they are.
pub open spec fn rendered_value(v: JsonView, vars: Seq<(Seq<char>, JsonView)>) -> JsonView {
    match v {
        JsonView::Str(s) => JsonView::Str(render(s, vars)),
        _ => v,
    }
}

/// The variables after setting the first `n` members of `ms` in order, each
/// string value rendered against the variables as they stand at that point.
pub open spec fn set_rendered(
    vars: Seq<(Seq<char>, JsonView)>,
    ms: Seq<(Seq<char>, JsonView)>,
    n: int,
) -> Seq<(Seq<char>, JsonView)>
    decreases n,
{
    if n <= 0 || n > ms.len() {
        vars
    } else {
        let prev = set_rendered(vars, ms, n - 1);
        vars_set(prev, ms[n - 1].0, rendered_value(ms[n - 1].1, prev))
    }
}

/// Executes a set_var node: every member of the `variables` object is set,
/// in order, string values rendered first; port `default`.
pub fn execute_set_var(node: &TopologyNode, context: &mut IvrExecutionContext) -> (r: NodeExecuteResult)
    ensures
        r@ == ResultView::Continue("default"@),
        same_but_vars(*final(context), *old(context)),
        final(context).vars() == match cfg_object(node.config@, "variables"@) {
            Some(ms) => set_rendered(old(context).vars(), ms, ms.len() as int),
            None => old(context).vars(),
        },
{
    match json_get(&node.config, "variables") {
        Some(JsonValue::Object(members)) => {
            proof {
                lemma_jview_members(members@);
            }
            let ghost ms = jview_members(members@);
            let mut i: usize = 0;
            while i < members.len()
                invariant
                    ms == jview_members(members@),
                    ms.len() == members@.len(),
                    forall|j: int|
                        0 <= j < members@.len() ==> #[trigger] ms[j] == (
                            members@[j].0@,
                            members@[j].1@,
                        ),
                    0 <= i <= members@.len(),
                    same_but_vars(*context, *old(context)),
                    context.vars() == set_rendered(old(context).vars(), ms, i as int),
                decreases members@.len() - i,
            {
                let value = match &members[i].1 {
                    JsonValue::String(s) => JsonValue::String(context.render_template(s.as_str())),
                    other => json_clone(other),
                };
                assert(value@ == rendered_value(ms[i as int].1, context.vars()));
                context.set_var(members[i].0.as_str(), value);
                i = i + 1;
            }
            continue_to("default")
        },
        _ => continue_to("default"),
    }
}

// ---------------------------------------------------------------------------
// loop
// ---------------------------------------------------------------------------

/// Loop counters by name.
pub open spec fn counters_view(s: Seq<(String, u32)>) -> Seq<(Seq<char>, u32)> {
    s.map_values(|p: (String, u32)| (p.0@, p.1))
}

/// Index of the first counter named `k` at `i` or later, or -1.
pub open spec fn counter_index(cs: Seq<(Seq<char>, u32)>, k: Seq<char>, i: int) -> int
    decreases cs.len() - i,
{
    if i < 0 || i >= cs.len() {
        -1
    } else if cs[i].0 == k {
        i
    } else {
        counter_index(cs, k, i + 1)
    }
}

/// The count of loop `k`; 0 before its first iteration.
pub open spec fn counter_of(cs: Seq<(Seq<char>, u32)>, k: Seq<char>) -> u32 {
    let i = counter_index(cs, k, 0);
    if i >= 0 {
        cs[i].1
    } else {
        0
    }
}

/// The counters after one more iteration of loop `k`.
pub open spec fn counters_bump(cs: Seq<(Seq<char>, u32)>, k: Seq<char>) -> Seq<(Seq<char>, u32)> {
    let i = counter_index(cs, k, 0);
    if i >= 0 {
        cs.update(i, (k, (cs[i].1 + 1) as u32))
    } else {
        cs.push((k, 1u32))
    }
}

pub proof fn lemma_counter_index_range(cs: Seq<(Seq<char>, u32)>, k: Seq<char>, i: int)
    ensures
        counter_index(cs, k, i) == -1 || (i <= counter_index(cs, k, i) < cs.len() && cs[counter_index(
            cs,
            k,
            i,
        )].0 == k),
    decreases cs.len() - i,
{
    if 0 <= i < cs.len() && cs[i].0 != k {
        lemma_counter_index_range(cs, k, i + 1);
    }
}

/// Position of the counter named `k`.
fn find_counter(cs: &Vec<(String, u32)>, k: &str) -> (r: Option<usize>)
    ensures
        match r {
            Some(i) => i < cs@.len() && counter_index(counters_view(cs@), k@, 0) == i,
            None => counter_index(counters_view(cs@), k@, 0) == -1,
        },
{
    let ghost v = counters_view(cs@);
    let mut i: usize = 0;
    while i < cs.len()
        invariant
            v == counters_view(cs@),
            0 <= i <= cs@.len(),
            counter_index(v, k@, 0) == counter_index(v, k@, i as int),
        decreases cs@.len() - i,
    {
        if str_eq(cs[i].0.as_str(), k) {
            return Some(i);
        }
        i = i + 1;
    }
    None
}

/// Entries before the first counter named `k` (all, when there is none)
/// have other names.
proof fn lemma_counter_prefix(cs: Seq<(Seq<char>, u32)>, k: Seq<char>, i: int)
    requires
        0 <= i,
    ensures
        forall|j: int|
            i <= j < cs.len() && (counter_index(cs, k, i) < 0 || j < counter_index(cs, k, i))
                ==> cs[j].0 != k,
    decreases cs.len() - i,
{
    if i < cs.len() && cs[i].0 != k {
        lemma_counter_prefix(cs, k, i + 1);
    }
}

/// Counter lists with the same names, save entries not named `k`, find `k`
/// at the same place.
proof fn lemma_counter_index_same(
    cs: Seq<(Seq<char>, u32)>,
    ws: Seq<(Seq<char>, u32)>,
    k: Seq<char>,
    i: int,
)
    requires
        0 <= i,
        cs.len() <= ws.len(),
        forall|j: int| 0 <= j < cs.len() ==> ws[j].0 == cs[j].0 || (ws[j].0 != k && cs[j].0 != k),
        forall|j: int| cs.len() <= j < ws.len() ==> ws[j].0 != k,
    ensures
        counter_index(ws, k, i) == counter_index(cs, k, i),
    decreases ws.len() - i,
{
    if i < ws.len() {
        lemma_counter_index_same(cs, ws, k, i + 1);
    }
}

/// The first counter named `k` from `i` on is the one at `idx`.
proof fn lemma_counter_first(ws: Seq<(Seq<char>, u32)>, k: Seq<char>, i: int, idx: int)
    requires
        0 <= i <= idx < ws.len(),
        ws[idx].0 == k,
        forall|j: int| i <= j < idx ==> ws[j].0 != k,
    ensures
        counter_index(ws, k, i) == idx,
    decreases idx - i,
{
    if i < idx {
        lemma_counter_first(ws, k, i + 1, idx);
    }
}

/// One iteration of loop `k` adds one to its count and leaves the count of
/// every other loop as it was.
pub proof fn lemma_bump_counts_once(cs: Seq<(Seq<char>, u32)>, k: Seq<char>, other: Seq<char>)
    requires
        counter_of(cs, k) < u32::MAX,
    ensures
        counter_of(counters_bump(cs, k), k) == counter_of(cs, k) + 1,
        other != k ==> counter_of(counters_bump(cs, k), other) == counter_of(cs, other),
{
    lemma_counter_index_range(cs, k, 0);
    lemma_counter_prefix(cs, k, 0);
    let ws = counters_bump(cs, k);
    let i = counter_index(cs, k, 0);
    if i >= 0 {
        lemma_counter_first(ws, k, 0, i);
    } else {
        lemma_counter_first(ws, k, 0, cs.len() as int);
    }
    if other != k {
        lemma_counter_index_same(cs, ws, other, 0);
        lemma_counter_index_range(cs, other, 0);
    }
}

/// The loop a loop node counts: `loop_id`, or the node's own id.
pub open spec fn loop_id_of(c: JsonView, node_id: Seq<char>) -> Seq<char> {
    cfg_str_or(c, "loop_id"@, node_id)
}

/// The iteration limit of a loop node: `max_iterations` cut to 32 bits, or 10.
pub open spec fn loop_max_of(c: JsonView) -> u32 {
    match cfg_u64(c, "max_iterations"@) {
        Some(v) => v as u32,
        None => 10,
    }
}

/// The loop a loop node counts.
pub fn loop_id(node: &TopologyNode) -> (r: String)
    ensures
        r@ == loop_id_of(node.config@, node.id@),
{
    config_str_or(node, "loop_id", node.id.as_str())
}

/// How many iterations of loop `id` the context has counted.
pub fn loop_count(context: &IvrExecutionContext, id: &str) -> (r: u32)
    ensures
        r == counter_of(counters_view(context.loop_counters@), id@),
{
    match find_counter(&context.loop_counters, id) {
        Some(i) => context.loop_counters[i].1,
        None => 0,
    }
}

/// Executes a loop node: counts one more iteration of its loop and takes
/// port `loop` while the count is within the limit, `exit` after.
pub fn execute_loop(node: &TopologyNode, context: &mut IvrExecutionContext) -> (r: NodeExecuteResult)
    requires
        counter_of(counters_view(old(context).loop_counters@), loop_id_of(node.config@, node.id@))
            < u32::MAX,
    ensures
        ({
            let k = loop_id_of(node.config@, node.id@);
            let before = counters_view(old(context).loop_counters@);
            &&& counters_view(final(context).loop_counters@) == counters_bump(before, k)
            &&& r@ == ResultView::Continue(
                if counter_of(before, k) + 1 <= loop_max_of(node.config@) {
                    "loop"@
                } else {
                    "exit"@
                },
            )
        }),
        final(context).vars() == old(context).vars(),
        final(context).variables == old(context).variables,
        final(context).call_id == old(context).call_id,
        final(context).caller_id == old(context).caller_id,
        final(context).did == old(context).did,
        final(context).current_node_id == old(context).current_node_id,
        final(context).collected_dtmf == old(context).collected_dtmf,
        final(context).last_webhook_response == old(context).last_webhook_response,
{
    let loop_id = config_str_or(node, "loop_id", node.id.as_str());
    let max_iter: u32 = match config_u64(node, "max_iterations") {
        Some(v) => v as u32,
        None => 10,
    };
    let ghost k = loop_id@;
    let ghost before = counters_view(context.loop_counters@);
    let current: u32;
    match find_counter(&context.loop_counters, loop_id.as_str()) {
        Some(i) => {
            current = context.loop_counters[i].1 + 1;
            let name = string_from(loop_id.as_str());
            context.loop_counters.set(i, (name, current));
            assert(counters_view(context.loop_counters@) =~= counters_bump(before, k));
        },
        None => {
            current = 1;
            let name = string_from(loop_id.as_str());
            context.loop_counters.push((name, current));
            assert(counters_view(context.loop_counters@) =~= counters_bump(before, k));
        },
    }
    if current <= max_iter {
        continue_to("loop")
    } else {
        continue_to("exit")
    }
}


// ---------------------------------------------------------------------------
// http_webhook
// ---------------------------------------------------------------------------

/// The HTTP call an http_webhook node asks for.
pub struct WebhookRequest {
    /// Upper-cased; one of GET, POST, PUT, DELETE, PATCH.
    pub method: String,
    pub url: String,
    pub timeout_secs: u64,
    /// Headers with string values, the values rendered.
    pub headers: Vec<(String, String)>,
    /// Sent as the JSON body when present.
    pub body: Option<JsonValue>,
}

pub open spec fn webhook_method_ok(m: Seq<char>) -> bool {
    m == "GET"@ || m == "POST"@ || m == "PUT"@ || m == "DELETE"@ || m == "PATCH"@
}

/// Whether an upper-cased method is one an http_webhook node may send.
pub fn webhook_method_allowed(method: &str) -> (r: bool)
    ensures
        r == webhook_method_ok(method@),
{
    str_eq(method, "GET") || str_eq(method, "POST") || str_eq(method, "PUT") || str_eq(method, "DELETE")
        || str_eq(method, "PATCH")
}

/// The request headers: each member of `headers` whose value is a string,
/// in order, the value rendered.
pub open spec fn header_pairs(
    ms: Seq<(Seq<char>, JsonView)>,
    vars: Seq<(Seq<char>, JsonView)>,
    n: int,
) -> Seq<(Seq<char>, Seq<char>)>
    decreases n,
{
    if n <= 0 || n > ms.len() {
        Seq::empty()
    } else {
        let prev = header_pairs(ms, vars, n - 1);
        match ms[n - 1].1 {
            JsonView::Str(v) => prev.push((ms[n - 1].0, render(v, vars))),
            _ => prev,
        }
    }
}

pub open spec fn pairs_view(s: Seq<(String, String)>) -> Seq<(Seq<char>, Seq<char>)> {
    s.map_values(|p: (String, String)| (p.0@, p.1@))
}

pub open spec fn opt_json_view(o: Option<JsonValue>) -> Option<JsonView> {
    match o {
        Some(v) => Some(v@),
        None => None,
    }
}

/// The webhook method: `method` (default GET) upper-cased.
pub open spec fn webhook_method_of(c: JsonView) -> Seq<char> {
    unicode_upper(cfg_str_or(c, "method"@, "GET"@))
}

/// The request of an http_webhook node: its rendered `url`, its method,
/// `timeout_secs` (default 10), its string headers rendered and its `body`.
/// Without a url the node fails; with a method other than GET, POST, PUT,
/// DELETE or PATCH it takes port `error`.
pub fn webhook_request(node: &TopologyNode, context: &IvrExecutionContext) -> (r: Result<
    WebhookRequest,
    NodeExecuteResult,
>)
    ensures
        ({
            let c = node.config@;
            let url = cfg_str_or(c, "url"@, ""@);
            if url.len() == 0 {
                r matches Err(e) && e@ == ResultView::Error("http_webhook 节点未配置 url"@)
            } else if !webhook_method_ok(webhook_method_of(c)) {
                r matches Err(e) && e@ == ResultView::Continue("error"@)
            } else {
                r matches Ok(q) && q.method@ == webhook_method_of(c) && q.url@ == render(
                    url,
                    context.vars(),
                ) && q.timeout_secs == match cfg_u64(c, "timeout_secs"@) {
                    Some(v) => v,
                    None => 10,
                } && pairs_view(q.headers@) == match cfg_object(c, "headers"@) {
                    Some(ms) => header_pairs(ms, context.vars(), ms.len() as int),
                    None => Seq::empty(),
                } && opt_json_view(q.body) == jget(c, "body"@)
            }
        }),
{
    let url_text = config_str_or(node, "url", "");
    if url_text.as_str().is_empty() {
        return Err(error_with("http_webhook 节点未配置 url"));
    }
    let method_text = config_str_or(node, "method", "GET");
    let method = to_uppercase(method_text.as_str());
    let timeout_secs = match config_u64(node, "timeout_secs") {
        Some(v) => v,
        None => 10,
    };
    if !webhook_method_allowed(method.as_str()) {
        return Err(error_port());
    }
    let url = context.render_template(url_text.as_str());
    let mut headers: Vec<(String, String)> = Vec::new();
    match json_get(&node.config, "headers") {
        Some(JsonValue::Object(members)) => {
            proof {
                lemma_jview_members(members@);
            }
            let ghost ms = jview_members(members@);
            let ghost vars = context.vars();
            let mut i: usize = 0;
            while i < members.len()
                invariant
                    ms == jview_members(members@),
                    ms.len() == members@.len(),
                    forall|j: int|
                        0 <= j < members@.len() ==> #[trigger] ms[j] == (
                            members@[j].0@,
                            members@[j].1@,
                        ),
                    0 <= i <= members@.len(),
                    vars == context.vars(),
                    pairs_view(headers@) == header_pairs(ms, vars, i as int),
                decreases members@.len() - i,
            {
                match &members[i].1 {
                    JsonValue::String(v) => {
                        let value = context.render_template(v.as_str());
                        let name = members[i].0.clone();
                        headers.push((name, value));
                        assert(pairs_view(headers@) =~= header_pairs(ms, vars, i + 1));
                    },
                    _ => {},
                }
                i = i + 1;
            }
        },
        _ => {},
    }
    let body = match json_get(&node.config, "body") {
        Some(b) => Some(json_clone(b)),
        None => None,
    };
    Ok(WebhookRequest { method, url, timeout_secs, headers, body })
}

/// The `error` port of an http_webhook node.
pub fn error_port() -> (r: NodeExecuteResult)
    ensures
        r@ == ResultView::Continue("error"@),
{
    continue_to("error")
}

/// The result of an http_webhook node once the server has answered: the
/// response is kept as the last webhook response, and the node takes port
/// `success` for a success status, `error` otherwise.
pub fn webhook_result(context: &mut IvrExecutionContext, response: JsonValue, success: bool) -> (r:
    NodeExecuteResult)
    ensures
        r@ == ResultView::Continue(
            if success {
                "success"@
            } else {
                "error"@
            },
        ),
        opt_json_view(final(context).last_webhook_response) == Some(response@),
        final(context).variables == old(context).variables,
        final(context).call_id == old(context).call_id,
        final(context).caller_id == old(context).caller_id,
        final(context).did == old(context).did,
        final(context).current_node_id == old(context).current_node_id,
        final(context).loop_counters == old(context).loop_counters,
        final(context).collected_dtmf == old(context).collected_dtmf,
{
    context.last_webhook_response = Some(response);
    if success {
        continue_to("success")
    } else {
        error_port()
    }
}


// ---------------------------------------------------------------------------
// Laws of the comparison operators
// ---------------------------------------------------------------------------

/// `gt` holds of a variable and a value exactly when `lt` holds of them the
/// other way round.
pub proof fn lemma_gt_is_reversed_lt(a: JsonView, b: JsonView)
    ensures
        compare_spec(a, b, "gt"@) == compare_spec(b, a, "lt"@),
{
    reveal_strlit("eq");
    reveal_strlit("ne");
    reveal_strlit("gt");
    reveal_strlit("lt");
    assert("gt"@[0] != "eq"@[0] && "gt"@[0] != "ne"@[0]);
    assert("lt"@[0] != "eq"@[0] && "lt"@[0] != "ne"@[0] && "lt"@[0] != "gt"@[0]);
    lemma_order_antisymmetric(a, b);
}

/// `starts_with` holds exactly when the value's text is a prefix of the
/// variable's text; a value that occurs only further in does not match.
pub proof fn lemma_starts_with_is_prefix(a: JsonView, t: JsonView)
    ensures
        compare_spec(a, t, "starts_with"@) == (value_text(t).len() <= value_text(a).len()
            && value_text(a).subrange(0, value_text(t).len() as int) == value_text(t)),
{
    reveal_strlit("eq");
    reveal_strlit("ne");
    reveal_strlit("gt");
    reveal_strlit("lt");
    reveal_strlit("contains");
    reveal_strlit("starts_with");
    assert("starts_with"@.len() != "eq"@.len());
    assert("starts_with"@.len() != "contains"@.len());
}

/// `ends_with` holds exactly when the value's text is a suffix of the
/// variable's text.
pub proof fn lemma_ends_with_is_suffix(a: JsonView, t: JsonView)
    ensures
        compare_spec(a, t, "ends_with"@) == (value_text(t).len() <= value_text(a).len()
            && value_text(a).subrange(value_text(a).len() - value_text(t).len(), value_text(a).len() as int)
            == value_text(t)),
{
    reveal_strlit("eq");
    reveal_strlit("ne");
    reveal_strlit("gt");
    reveal_strlit("lt");
    reveal_strlit("contains");
    reveal_strlit("starts_with");
    reveal_strlit("ends_with");
    assert("ends_with"@.len() != "eq"@.len());
    assert("ends_with"@.len() != "contains"@.len());
    assert("ends_with"@.len() != "starts_with"@.len());
}

} // verus!
