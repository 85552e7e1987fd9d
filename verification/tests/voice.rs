use sip_edge::ivr::executors::ai::{ai_reply, ai_request, ai_result, AiOutcome};
use sip_edge::ivr::executors::voice::{execute_asr, tts_result, tts_text, wav_bytes, TtsOutcome};
use sip_edge::ivr::json::{json_to_string, JsonNumber, JsonValue};
use sip_edge::ivr::types::{IvrExecutionContext, NodeExecuteResult, TopologyNode};
use sip_edge::voice::AsrConfig;

fn check_asr_default() {
    let config = AsrConfig::default();
    assert_eq!(config.language, "auto");
    assert!(config.use_itn);
    assert_eq!(config.num_threads, 2);
}

#[test]
fn voice_engine_test_asr_config_default() {
    check_asr_default();
}

#[test]
fn tests_test_asr_config_default() {
    check_asr_default();
}

#[test]
fn write_pcm_to_temp_wav_roundtrip_header() {
    let samples = [0i16, 1, -1, 32767];
    let bytes = wav_bytes(&samples, 8000);
    assert_eq!(bytes.len(), 44 + samples.len() * 2);
    assert_eq!(&bytes[0..4], b"RIFF");
    assert_eq!(&bytes[8..12], b"WAVE");
    assert_eq!(&bytes[12..16], b"fmt ");
    assert_eq!(&bytes[36..40], b"data");
    assert_eq!(u32::from_le_bytes(bytes[40..44].try_into().unwrap()), 8);
}

#[test]
fn wav_header_fields_and_samples_are_little_endian() {
    let bytes = wav_bytes(&[-2i16, 258], 16000);
    assert_eq!(u32::from_le_bytes(bytes[4..8].try_into().unwrap()), 36 + 4);
    assert_eq!(u32::from_le_bytes(bytes[24..28].try_into().unwrap()), 16000);
    assert_eq!(u32::from_le_bytes(bytes[28..32].try_into().unwrap()), 32000);
    assert_eq!(&bytes[44..48], &[0xfe, 0xff, 0x02, 0x01]);
}

fn node(node_type: &str, config: JsonValue) -> TopologyNode {
    TopologyNode {
        id: "n".to_string(),
        node_type: node_type.to_string(),
        title: "t".to_string(),
        description: None,
        config,
    }
}

fn obj(members: Vec<(&str, JsonValue)>) -> JsonValue {
    let mut m: Vec<(String, JsonValue)> = members.into_iter().map(|(k, v)| (k.to_string(), v)).collect();
    m.sort_by(|a, b| a.0.cmp(&b.0));
    JsonValue::Object(m)
}

#[test]
fn tts_and_asr_nodes() {
    let mut ctx = IvrExecutionContext::new("c".to_string(), "1".to_string(), "2".to_string());
    ctx.set_var("n", JsonValue::String("Ann".to_string()));
    let t = node("tts", obj(vec![("text", JsonValue::String("hello {{n}}".to_string()))]));
    assert_eq!(tts_text(&t, &ctx).ok(), Some("hello Ann".to_string()));
    let empty = node("tts", obj(vec![]));
    assert!(matches!(tts_text(&empty, &ctx), Err(NodeExecuteResult::Continue { ref port }) if port == "default"));
    assert!(matches!(tts_result(TtsOutcome::Played), NodeExecuteResult::Continue { ref port } if port == "default"));
    assert!(matches!(tts_result(TtsOutcome::SynthesisFailed("x".to_string())),
        NodeExecuteResult::Error { ref message } if message == "TTS 合成失败: x"));
    let asr = node("asr", obj(vec![("timeout_secs", JsonValue::Number(JsonNumber::PosInt(4_294_967_297)))]));
    assert!(matches!(execute_asr(&asr, &ctx), NodeExecuteResult::WaitForAsr { timeout_secs: 1 }));
    assert!(matches!(execute_asr(&node("asr", obj(vec![])), &ctx), NodeExecuteResult::WaitForAsr { timeout_secs: 10 }));
}

#[test]
fn ai_node_builds_the_chat_call_and_keeps_the_reply() {
    let mut ctx = IvrExecutionContext::new("c".to_string(), "1".to_string(), "2".to_string());
    ctx.set_var("q", JsonValue::String("balance?".to_string()));
    let n = node("ai_agent", obj(vec![("prompt", JsonValue::String("Q: {{q}}".to_string()))]));
    let req = ai_request(&n, &ctx, "http://api:8080").ok().unwrap();
    assert_eq!(req.endpoint, "http://api:8080/api/v1/copilot/chat");
    assert_eq!(req.timeout_secs, 30);
    assert_eq!(req.max_turns, 5);
    assert_eq!(req.model, "default");
    assert_eq!(
        json_to_string(&req.body),
        "{\"message\":\"Q: balance?\",\"stream\":false,\"system_prompt\":\"你是一个电话客服助手\"}"
    );
    let missing = node("ai_agent", obj(vec![]));
    assert!(matches!(ai_request(&missing, &ctx, "x"),
        Err(NodeExecuteResult::Error { ref message }) if message == "ai_agent 节点未配置 prompt"));

    let reply = obj(vec![
        ("message", JsonValue::String("second".to_string())),
        ("reply", JsonValue::Number(JsonNumber::PosInt(1))),
    ]);
    // `reply` is present, so it is used even though it is not a string.
    assert_eq!(ai_reply(&reply), "");
    let good = obj(vec![("content", JsonValue::String("ok".to_string()))]);
    let r = ai_result(&mut ctx, AiOutcome::Response(good));
    assert!(matches!(r, NodeExecuteResult::Continue { ref port } if port == "default"));
    assert!(matches!(ctx.get_var("ai_reply"), Some(JsonValue::String(ref s)) if s == "ok"));
    let failed = ai_result(&mut ctx, AiOutcome::HttpStatus("500 Internal Server Error".to_string()));
    assert!(matches!(failed, NodeExecuteResult::Error { ref message } if message == "LLM 调用失败: 500 Internal Server Error"));
}
