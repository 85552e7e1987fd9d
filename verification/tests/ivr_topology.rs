use sip_edge::ivr::engine::{EngineAction, IvrRun};
use sip_edge::ivr::executors::basic::{execute, execute_collect_input, prompt_playback};
use sip_edge::ivr::executors::flow::{
    execute_condition, execute_loop, execute_route, execute_set_var, webhook_method_allowed,
    webhook_request, webhook_result,
};
use sip_edge::ivr::executors::media::execute_transfer;
use sip_edge::ivr::executors::execute_local;
use sip_edge::ivr::json::{json_clone, JsonNumber, JsonValue};
use sip_edge::ivr::types::{
    IvrExecutionContext, IvrNodeType, IvrTopology, NodeExecuteResult, TopologyEdge, TopologyGraph, TopologyNode,
};

fn s(v: &str) -> JsonValue {
    JsonValue::String(v.to_string())
}

fn n(v: u64) -> JsonValue {
    JsonValue::Number(JsonNumber::PosInt(v))
}

fn obj(members: &[(&str, JsonValue)]) -> JsonValue {
    let mut sorted: Vec<(String, JsonValue)> = members
        .iter()
        .map(|(k, v)| (k.to_string(), json_clone(v)))
        .collect();
    sorted.sort_by(|a, b| a.0.cmp(&b.0));
    JsonValue::Object(sorted)
}

fn node(id: &str, node_type: &str, title: &str, config: JsonValue) -> TopologyNode {
    TopologyNode {
        id: id.to_string(),
        node_type: node_type.to_string(),
        title: title.to_string(),
        description: None,
        config,
    }
}

fn edge(id: &str, source: &str, target: &str, port: Option<&str>) -> TopologyEdge {
    TopologyEdge {
        id: id.to_string(),
        source: source.to_string(),
        target: target.to_string(),
        source_port: port.map(|p| p.to_string()),
        label: None,
    }
}

fn build_sample_topology() -> IvrTopology {
    let nodes = vec![
        node("node-start", "start", "开始", obj(&[])),
        node(
            "node-set-var",
            "set_var",
            "设置VIP变量",
            obj(&[("variables", obj(&[("vip", s("true"))]))]),
        ),
        node(
            "node-condition",
            "condition",
            "条件分支",
            obj(&[
                ("variable", s("vip")),
                ("operator", s("eq")),
                ("value", s("true")),
            ]),
        ),
        node(
            "node-prompt-vip",
            "prompt",
            "VIP欢迎语",
            obj(&[("prompt_url", s("http://example.com/vip.wav"))]),
        ),
        node(
            "node-prompt-normal",
            "prompt",
            "普通欢迎语",
            obj(&[("prompt_url", s("http://example.com/normal.wav"))]),
        ),
        node("node-hangup", "hangup", "挂断", obj(&[("reason", s("normal"))])),
    ];
    let edges = vec![
        edge("edge-1", "node-start", "node-set-var", None),
        edge("edge-2", "node-set-var", "node-condition", None),
        edge("edge-3", "node-condition", "node-prompt-vip", Some("match")),
        edge("edge-4", "node-condition", "node-prompt-normal", Some("nomatch")),
        edge("edge-5", "node-prompt-vip", "node-hangup", None),
    ];
    IvrTopology { nodes, edges }
}

fn port_of(result: NodeExecuteResult) -> String {
    match result {
        NodeExecuteResult::Continue { port } => port,
        _ => panic!("Expected Continue"),
    }
}

fn is_string(v: Option<&JsonValue>, expected: &str) -> bool {
    matches!(v, Some(JsonValue::String(x)) if x == expected)
}

#[test]
fn test_topology_graph_construction_and_lookups() {
    let topo = build_sample_topology();
    let graph = TopologyGraph::build(&topo);

    assert_eq!(graph.start_node_id.as_deref(), Some("node-start"));

    let condition = graph.get_node("node-condition");
    assert!(condition.is_some());
    assert_eq!(condition.unwrap().node_type, "condition");

    let next_from_start = graph.next_node("node-start", "default");
    assert_eq!(next_from_start.map(|n| n.id.as_str()), Some("node-set-var"));

    let next_vip = graph.next_node("node-condition", "match");
    assert_eq!(next_vip.map(|n| n.id.as_str()), Some("node-prompt-vip"));

    let next_normal = graph.next_node("node-condition", "nomatch");
    assert_eq!(next_normal.map(|n| n.id.as_str()), Some("node-prompt-normal"));
}

#[test]
fn test_execution_context_variables_and_template_render() {
    let mut ctx = IvrExecutionContext::new("call-12345".to_string(), "1001".to_string(), "8888".to_string());
    ctx.set_var("customer_name", s("张三"));
    ctx.set_var("account_balance", s("100.50"));

    assert!(is_string(ctx.get_var("customer_name"), "张三"));
    assert!(is_string(ctx.get_var("account_balance"), "100.50"));
    assert!(ctx.get_var("non_existent").is_none());

    let rendered = ctx.render_template("尊敬的 {{customer_name}}，您的余额为 {{account_balance}} 元。");
    assert_eq!(rendered, "尊敬的 张三，您的余额为 100.50 元。");
}

#[test]
fn test_condition_executor_operators() {
    let mut ctx = IvrExecutionContext::new("call-test".to_string(), "1001".to_string(), "8888".to_string());
    ctx.set_var("score", s("95"));
    ctx.set_var("status", s("ACTIVE"));
    ctx.set_var("phone", s("13800138000"));

    let node_eq = node(
        "c1",
        "condition",
        "测试eq",
        obj(&[("variable", s("status")), ("operator", s("eq")), ("value", s("ACTIVE"))]),
    );
    assert_eq!(port_of(execute_condition(&node_eq, &ctx)), "match");

    let node_gt = node(
        "c2",
        "condition",
        "测试gt",
        obj(&[("variable", s("score")), ("operator", s("gt")), ("value", s("90"))]),
    );
    assert_eq!(port_of(execute_condition(&node_gt, &ctx)), "match");

    let node_contains = node(
        "c3",
        "condition",
        "测试contains",
        obj(&[("variable", s("phone")), ("operator", s("contains")), ("value", s("0013"))]),
    );
    assert_eq!(port_of(execute_condition(&node_contains, &ctx)), "match");
}

#[test]
fn test_set_var_and_loop_executors() {
    let mut ctx = IvrExecutionContext::new("call-loop".to_string(), "1001".to_string(), "8888".to_string());
    let node_set = node(
        "set-1",
        "set_var",
        "设置计数器",
        obj(&[("variables", obj(&[("retry_count", s("0"))]))]),
    );
    assert_eq!(port_of(execute_set_var(&node_set, &mut ctx)), "default");
    assert!(is_string(ctx.get_var("retry_count"), "0"));

    let node_loop = node(
        "loop-1",
        "loop",
        "重试循环",
        obj(&[("loop_id", s("l1")), ("max_iterations", n(3))]),
    );
    assert_eq!(port_of(execute_loop(&node_loop, &mut ctx)), "loop");
    assert_eq!(port_of(execute_loop(&node_loop, &mut ctx)), "loop");
    assert_eq!(port_of(execute_loop(&node_loop, &mut ctx)), "loop");
    assert_eq!(port_of(execute_loop(&node_loop, &mut ctx)), "exit");
}

#[test]
fn test_basic_executors_start_prompt_hangup() {
    let mut ctx = IvrExecutionContext::new("call-basic".to_string(), "1001".to_string(), "8888".to_string());
    let node_start = node("start", "start", "开始", obj(&[]));
    assert_eq!(port_of(execute(&node_start, &mut ctx)), "default");

    let node_hangup = node("hangup", "hangup", "挂断", obj(&[("reason", s("normal"))]));
    match execute(&node_hangup, &mut ctx) {
        NodeExecuteResult::Hangup { reason } => assert_eq!(reason, "normal"),
        _ => panic!("Expected Hangup"),
    }
}

#[test]
fn test_route_and_media_executors() {
    let ctx = IvrExecutionContext::new("call-media".to_string(), "1001".to_string(), "8888".to_string());
    let node_route = node(
        "route-1",
        "route",
        "转人工坐席",
        obj(&[("target", s("8001")), ("target_type", s("extension"))]),
    );
    match execute_route(&node_route, &ctx) {
        NodeExecuteResult::Transfer { target, transfer_type } => {
            assert_eq!(target, "8001");
            assert_eq!(transfer_type, "extension");
        }
        _ => panic!("Expected Transfer"),
    }

    let node_transfer = node(
        "transfer-1",
        "transfer_queue",
        "转接客服队列",
        obj(&[("target", s("queue-support")), ("target_type", s("queue"))]),
    );
    match execute_transfer(&node_transfer, &ctx) {
        NodeExecuteResult::Transfer { target, transfer_type } => {
            assert_eq!(target, "queue-support");
            assert_eq!(transfer_type, "queue");
        }
        _ => panic!("Expected Transfer"),
    }
}

#[test]
fn condition_without_value_matches_defined_variable() {
    let mut ctx = IvrExecutionContext::new("c".to_string(), "1".to_string(), "2".to_string());
    let cond = node("c", "condition", "t", obj(&[("variable", s("x"))]));
    assert_eq!(port_of(execute_condition(&cond, &ctx)), "nomatch");
    ctx.set_var("x", n(1));
    assert_eq!(port_of(execute_condition(&cond, &ctx)), "match");
}

#[test]
fn condition_numbers_compare_as_doubles() {
    let mut ctx = IvrExecutionContext::new("c".to_string(), "1".to_string(), "2".to_string());
    ctx.set_var("n", n(9_007_199_254_740_993));
    let gt = node(
        "c",
        "condition",
        "t",
        obj(&[("variable", s("n")), ("operator", s("gt")), ("value", n(9_007_199_254_740_992))]),
    );
    // Both convert to the same double, so neither is greater.
    assert_eq!(port_of(execute_condition(&gt, &ctx)), "nomatch");
    let lt = node(
        "c",
        "condition",
        "t",
        obj(&[("variable", s("n")), ("operator", s("lt")), ("value", n(10_000_000_000_000_000))]),
    );
    assert_eq!(port_of(execute_condition(&lt, &ctx)), "match");
    let neg = node(
        "c",
        "condition",
        "t",
        obj(&[
            ("variable", s("n")),
            ("operator", s("gt")),
            ("value", JsonValue::Number(JsonNumber::NegInt(-5))),
        ]),
    );
    assert_eq!(port_of(execute_condition(&neg, &ctx)), "match");
}

#[test]
fn condition_unknown_operator_and_mixed_types_never_match() {
    let mut ctx = IvrExecutionContext::new("c".to_string(), "1".to_string(), "2".to_string());
    ctx.set_var("v", s("10"));
    let odd = node(
        "c",
        "condition",
        "t",
        obj(&[("variable", s("v")), ("operator", s("between")), ("value", s("10"))]),
    );
    assert_eq!(port_of(execute_condition(&odd, &ctx)), "nomatch");
    let mixed = node(
        "c",
        "condition",
        "t",
        obj(&[("variable", s("v")), ("operator", s("gt")), ("value", n(1))]),
    );
    assert_eq!(port_of(execute_condition(&mixed, &ctx)), "nomatch");
    let ne = node(
        "c",
        "condition",
        "t",
        obj(&[("variable", s("v")), ("operator", s("ne")), ("value", n(10))]),
    );
    assert_eq!(port_of(execute_condition(&ne, &ctx)), "match");
    let ends = node(
        "c",
        "condition",
        "t",
        obj(&[("variable", s("v")), ("operator", s("ends_with")), ("value", n(0))]),
    );
    assert_eq!(port_of(execute_condition(&ends, &ctx)), "match");
}

#[test]
fn set_var_renders_strings_against_current_variables() {
    let mut ctx = IvrExecutionContext::new("c".to_string(), "1".to_string(), "2".to_string());
    ctx.set_var("name", s("Bob"));
    let set = node(
        "s",
        "set_var",
        "t",
        obj(&[("variables", obj(&[("greeting", s("hi {{name}}")), ("count", n(3))]))]),
    );
    execute_set_var(&set, &mut ctx);
    assert!(is_string(ctx.get_var("greeting"), "hi Bob"));
    assert!(matches!(ctx.get_var("count"), Some(JsonValue::Number(JsonNumber::PosInt(3)))));
    assert_eq!(ctx.render_template("{{count}}/{{greeting}}"), "3/hi Bob");
}

#[test]
fn loop_defaults_to_node_id_and_ten_iterations() {
    let mut ctx = IvrExecutionContext::new("c".to_string(), "1".to_string(), "2".to_string());
    let lp = node("loop-x", "loop", "t", obj(&[]));
    for _ in 0..10 {
        assert_eq!(port_of(execute_loop(&lp, &mut ctx)), "loop");
    }
    assert_eq!(port_of(execute_loop(&lp, &mut ctx)), "exit");
    assert_eq!(ctx.loop_counters, vec![("loop-x".to_string(), 11)]);
}

#[test]
fn route_without_target_is_an_error() {
    let ctx = IvrExecutionContext::new("c".to_string(), "1".to_string(), "2".to_string());
    let route = node("r", "route", "t", obj(&[]));
    match execute_route(&route, &ctx) {
        NodeExecuteResult::Error { message } => assert_eq!(message, "route 节点未配置 target"),
        _ => panic!("Expected Error"),
    }
    let ext = node("t", "transfer_ext", "t", obj(&[]));
    match execute_transfer(&ext, &ctx) {
        NodeExecuteResult::Error { message } => assert_eq!(message, "transfer_ext 节点未配置 target"),
        _ => panic!("Expected Error"),
    }
    let other = node("t", "prompt", "t", obj(&[("target", s("1"))]));
    match execute_transfer(&other, &ctx) {
        NodeExecuteResult::Error { message } => {
            assert_eq!(message, "execute_transfer 不支持的节点类型: prompt")
        }
        _ => panic!("Expected Error"),
    }
}

#[test]
fn start_node_sets_did_and_variables() {
    let mut ctx = IvrExecutionContext::new("c".to_string(), "1".to_string(), "8888".to_string());
    let start = node(
        "s",
        "start",
        "t",
        obj(&[("did", s("9999")), ("variables", obj(&[("lang", s("zh"))]))]),
    );
    execute(&start, &mut ctx);
    assert_eq!(ctx.did, "9999");
    assert!(is_string(ctx.get_var("lang"), "zh"));
    let hang = node("h", "hangup", "t", obj(&[]));
    match execute(&hang, &mut ctx) {
        NodeExecuteResult::Hangup { reason } => assert_eq!(reason, "IVR Hangup"),
        _ => panic!("Expected Hangup"),
    }
    let other = node("o", "menu", "t", obj(&[]));
    match execute(&other, &mut ctx) {
        NodeExecuteResult::Error { message } => assert_eq!(message, "basic::execute 不支持的节点类型: menu"),
        _ => panic!("Expected Error"),
    }
}

#[test]
fn collect_input_clamps_digits_and_reads_terminator() {
    let ctx = IvrExecutionContext::new("c".to_string(), "1".to_string(), "2".to_string());
    let menu = node(
        "m",
        "menu",
        "t",
        obj(&[("max_digits", n(300)), ("timeout_secs", n(7)), ("terminator", s("#*"))]),
    );
    match execute_collect_input(&menu, &ctx) {
        NodeExecuteResult::WaitForDtmf { max_digits, timeout_secs, terminator } => {
            // 300 cut to 8 bits is 44, clamped to 32.
            assert_eq!(max_digits, 32);
            assert_eq!(timeout_secs, 7);
            assert_eq!(terminator, Some('#'));
        }
        _ => panic!("Expected WaitForDtmf"),
    }
    let plain = node("m", "collect_dtmf", "t", obj(&[("max_digits", n(256))]));
    match execute_collect_input(&plain, &ctx) {
        NodeExecuteResult::WaitForDtmf { max_digits, timeout_secs, terminator } => {
            assert_eq!(max_digits, 1);
            assert_eq!(timeout_secs, 5);
            assert_eq!(terminator, None);
        }
        _ => panic!("Expected WaitForDtmf"),
    }
}

#[test]
fn prompt_without_audio_file_is_skipped() {
    let mut ctx = IvrExecutionContext::new("c".to_string(), "1".to_string(), "2".to_string());
    let p = node("p", "prompt", "t", obj(&[("prompt_url", s("x.wav"))]));
    match prompt_playback(&p, &ctx) {
        Err(NodeExecuteResult::Continue { port }) => assert_eq!(port, "default"),
        _ => panic!("Expected skip"),
    }
    ctx.set_var("lang", s("en"));
    let q = node(
        "p",
        "prompt",
        "t",
        obj(&[("audio_file", s("/a/{{lang}}.wav")), ("loop", JsonValue::Bool(true))]),
    );
    match prompt_playback(&q, &ctx) {
        Ok(play) => {
            assert_eq!(play.path, "/a/en.wav");
            assert!(play.loop_playback);
            assert!(play.interruptible);
        }
        Err(_) => panic!("Expected playback"),
    }
}

#[test]
fn webhook_request_uppercases_method_and_renders_headers() {
    let mut ctx = IvrExecutionContext::new("c".to_string(), "1".to_string(), "2".to_string());
    ctx.set_var("token", s("abc"));
    let w = node(
        "w",
        "http_webhook",
        "t",
        obj(&[
            ("url", s("http://h/{{token}}")),
            ("method", s("post")),
            ("headers", obj(&[("X-Auth", s("Bearer {{token}}")), ("X-Num", n(1))])),
        ]),
    );
    match webhook_request(&w, &ctx) {
        Ok(req) => {
            assert_eq!(req.method, "POST");
            assert_eq!(req.url, "http://h/abc");
            assert_eq!(req.timeout_secs, 10);
            assert_eq!(req.headers, vec![("X-Auth".to_string(), "Bearer abc".to_string())]);
            assert!(req.body.is_none());
        }
        Err(_) => panic!("Expected request"),
    }
    let bad = node("w", "http_webhook", "t", obj(&[("url", s("http://h")), ("method", s("TRACE"))]));
    match webhook_request(&bad, &ctx) {
        Err(NodeExecuteResult::Continue { port }) => assert_eq!(port, "error"),
        _ => panic!("Expected error port"),
    }
    let none = node("w", "http_webhook", "t", obj(&[]));
    match webhook_request(&none, &ctx) {
        Err(NodeExecuteResult::Error { message }) => assert_eq!(message, "http_webhook 节点未配置 url"),
        _ => panic!("Expected error"),
    }
    assert_eq!(port_of(webhook_result(&mut ctx, s("ok"), true)), "success");
    assert_eq!(port_of(webhook_result(&mut ctx, s("bad"), false)), "error");
    assert!(matches!(ctx.last_webhook_response, Some(JsonValue::String(ref x)) if x == "bad"));
}

fn expect_execute(action: &EngineAction) -> String {
    match action {
        EngineAction::Execute { node_id } => node_id.clone(),
        _ => panic!("Expected Execute"),
    }
}

#[test]
fn engine_walks_the_sample_topology() {
    let topo = build_sample_topology();
    let graph = TopologyGraph::build(&topo);
    let mut ctx = IvrExecutionContext::new("call".to_string(), "1001".to_string(), "8888".to_string());
    let (mut run, mut action) = IvrRun::begin(&graph, &mut ctx);
    let mut visited = Vec::new();
    loop {
        let id = expect_execute(&action);
        visited.push(id.clone());
        let node = graph.get_node(&id).unwrap();
        let result = match execute_local(node, &mut ctx) {
            Some(r) => r,
            // prompt: played by the caller, then port default
            None => NodeExecuteResult::Continue { port: "default".to_string() },
        };
        action = run.after_node(&graph, &mut ctx, result);
        if let EngineAction::Hangup { reason } = &action {
            assert_eq!(reason, "normal");
            break;
        }
    }
    assert_eq!(
        visited,
        vec!["node-start", "node-set-var", "node-condition", "node-prompt-vip", "node-hangup"]
    );
    assert_eq!(run.steps, 5);
    assert_eq!(ctx.current_node_id.as_deref(), Some("node-hangup"));
}

#[test]
fn engine_stops_a_topology_loop_after_the_step_limit() {
    let topo = IvrTopology {
        nodes: vec![
            node("s", "start", "t", obj(&[])),
            node("a", "set_var", "t", obj(&[])),
        ],
        edges: vec![edge("e1", "s", "a", None), edge("e2", "a", "a", None)],
    };
    let graph = TopologyGraph::build(&topo);
    let mut ctx = IvrExecutionContext::new("call".to_string(), "1".to_string(), "2".to_string());
    let (mut run, mut action) = IvrRun::begin(&graph, &mut ctx);
    let mut executed = 0u32;
    loop {
        match &action {
            EngineAction::Execute { node_id } => {
                executed += 1;
                let node = graph.get_node(node_id).unwrap();
                let result = execute_local(node, &mut ctx).unwrap();
                action = run.after_node(&graph, &mut ctx, result);
            }
            EngineAction::Hangup { reason } => {
                assert_eq!(reason, "IVR Step Limit Exceeded");
                break;
            }
            _ => panic!("unexpected action"),
        }
    }
    assert_eq!(executed, 1000);
}

#[test]
fn engine_without_start_hangs_up_and_errors_follow_error_port() {
    let empty = IvrTopology { nodes: vec![], edges: vec![] };
    let graph = TopologyGraph::build(&empty);
    let mut ctx = IvrExecutionContext::new("call".to_string(), "1".to_string(), "2".to_string());
    let (_, action) = IvrRun::begin(&graph, &mut ctx);
    assert!(matches!(action, EngineAction::Hangup { ref reason } if reason == "IVR No Start Node"));

    let topo = IvrTopology {
        nodes: vec![
            node("s", "start", "t", obj(&[])),
            node("x", "mystery", "t", obj(&[])),
            node("h", "hangup", "t", obj(&[("reason", s("handled"))])),
        ],
        edges: vec![edge("e1", "s", "x", None), edge("e2", "x", "h", Some("error"))],
    };
    let graph = TopologyGraph::build(&topo);
    let mut ctx = IvrExecutionContext::new("call".to_string(), "1".to_string(), "2".to_string());
    let (mut run, action) = IvrRun::begin(&graph, &mut ctx);
    let start = graph.get_node(&expect_execute(&action)).unwrap();
    let r = execute_local(start, &mut ctx).unwrap();
    let action = run.after_node(&graph, &mut ctx, r);
    let mystery = graph.get_node(&expect_execute(&action)).unwrap();
    let r = execute_local(mystery, &mut ctx).unwrap();
    match &r {
        NodeExecuteResult::Error { message } => assert_eq!(message, "未知节点类型: mystery"),
        _ => panic!("Expected Error"),
    }
    let action = run.after_node(&graph, &mut ctx, r);
    assert_eq!(expect_execute(&action), "h");
    let no_error_port = run.after_node(
        &graph,
        &mut ctx,
        NodeExecuteResult::Error { message: "x".to_string() },
    );
    assert!(matches!(no_error_port, EngineAction::Hangup { ref reason } if reason == "IVR Node Error"));
}

#[test]
fn engine_follows_dtmf_key_then_default_port() {
    let topo = IvrTopology {
        nodes: vec![
            node("s", "start", "t", obj(&[])),
            node("m", "menu", "t", obj(&[])),
            node("one", "hangup", "t", obj(&[])),
            node("other", "hangup", "t", obj(&[])),
        ],
        edges: vec![
            edge("e1", "s", "m", None),
            edge("e2", "m", "one", Some("key_1")),
            edge("e3", "m", "other", None),
        ],
    };
    let graph = TopologyGraph::build(&topo);
    let mut ctx = IvrExecutionContext::new("call".to_string(), "1".to_string(), "2".to_string());
    let (mut run, action) = IvrRun::begin(&graph, &mut ctx);
    let s0 = graph.get_node(&expect_execute(&action)).unwrap();
    let r = execute_local(s0, &mut ctx).unwrap();
    let action = run.after_node(&graph, &mut ctx, r);
    let m = graph.get_node(&expect_execute(&action)).unwrap();
    let r = execute_local(m, &mut ctx).unwrap();
    let action = run.after_node(&graph, &mut ctx, r);
    assert!(matches!(action, EngineAction::CollectDtmf { max_digits: 1, timeout_secs: 5, terminator: None }));
    let mut run2 = IvrRun { current_id: run.current_id.clone(), steps: run.steps };
    let mut ctx2 = IvrExecutionContext::new("call".to_string(), "1".to_string(), "2".to_string());
    let a1 = run.after_dtmf(&graph, &mut ctx, "1".to_string());
    assert_eq!(expect_execute(&a1), "one");
    assert_eq!(ctx.collected_dtmf, "1");
    let a2 = run2.after_dtmf(&graph, &mut ctx2, "9".to_string());
    assert_eq!(expect_execute(&a2), "other");
    let mut run3 = IvrRun { current_id: "one".to_string(), steps: 3 };
    let a3 = run3.after_asr(&graph, &mut ctx2, "hello".to_string());
    assert!(matches!(a3, EngineAction::Finish));
    assert!(is_string(ctx2.get_var("asr_result"), "hello"));
}

#[test]
fn webhook_methods_allowed() {
    for m in ["GET", "POST", "PUT", "DELETE", "PATCH"] {
        assert!(webhook_method_allowed(m));
    }
    assert!(!webhook_method_allowed("get"));
    assert!(!webhook_method_allowed("HEAD"));
}

#[test]
fn node_type_names_round_trip() {
    for name in [
        "start", "prompt", "tts", "collect_dtmf", "menu", "condition", "route", "transfer_queue",
        "transfer_ext", "transfer_pstn", "voicemail", "record", "http_webhook", "set_var", "asr",
        "ai_agent", "loop", "hangup",
    ] {
        let t = IvrNodeType::from_str(name).unwrap();
        assert_eq!(t.name(), name);
    }
    assert!(IvrNodeType::from_str("Start").is_none());
}
