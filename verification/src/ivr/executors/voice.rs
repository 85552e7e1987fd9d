//! Speech nodes: tts (synthesise, write a WAV file, play it) and asr.
use vstd::prelude::*;
use crate::ivr::executors::basic::{nonempty_cfg_str, read_str_config, timeout_of};
use crate::ivr::executors::{config_u64, continue_to, render};
use crate::ivr::types::{IvrExecutionContext, NodeExecuteResult, ResultView, TopologyNode};
use crate::text::push_str;

verus! {

/// The text a tts node speaks: its non-empty `text`, rendered.  Without
/// one the node is skipped: port `default`.
pub fn tts_text(node: &TopologyNode, context: &IvrExecutionContext) -> (r: Result<String, NodeExecuteResult>)
    ensures
        match nonempty_cfg_str(node.config@, "text"@) {
            Some(t) => r matches Ok(s) && s@ == render(t, context.vars()),
            None => r matches Err(e) && e@ == ResultView::Continue("default"@),
        },
{
    match read_str_config(node, "text") {
        Some(t) => Ok(context.render_template(t.as_str())),
        None => Err(continue_to("default")),
    }
}

/// How the outside work of a tts node ended.
pub enum TtsOutcome {
    /// No TTS engine is configured.
    EngineMissing,
    SynthesisFailed(String),
    /// The synthesised audio could not be written to a file.
    WriteFailed(String),
    PlaybackFailed(String),
    Played,
}

/// The result of a tts node: port `default` when the audio played or no
/// engine is configured, an error naming the step that failed otherwise.
pub fn tts_result(outcome: TtsOutcome) -> (r: NodeExecuteResult)
    ensures
        match outcome {
            TtsOutcome::EngineMissing => r@ == ResultView::Continue("default"@),
            TtsOutcome::Played => r@ == ResultView::Continue("default"@),
            TtsOutcome::SynthesisFailed(e) => r@ == ResultView::Error("TTS 合成失败: "@ + e@),
            TtsOutcome::WriteFailed(e) => r@ == ResultView::Error("TTS 写入临时文件失败: "@ + e@),
            TtsOutcome::PlaybackFailed(e) => r@ == ResultView::Error("TTS 播放失败: "@ + e@),
        },
{
    proof {
        reveal_strlit("");
    }
    match outcome {
        TtsOutcome::EngineMissing => continue_to("default"),
        TtsOutcome::Played => continue_to("default"),
        TtsOutcome::SynthesisFailed(e) => {
            let mut message = String::new();
            push_str(&mut message, "TTS 合成失败: ");
            push_str(&mut message, e.as_str());
            assert(message@ =~= "TTS 合成失败: "@ + e@);
            NodeExecuteResult::Error { message }
        },
        TtsOutcome::WriteFailed(e) => {
            let mut message = String::new();
            push_str(&mut message, "TTS 写入临时文件失败: ");
            push_str(&mut message, e.as_str());
            assert(message@ =~= "TTS 写入临时文件失败: "@ + e@);
            NodeExecuteResult::Error { message }
        },
        TtsOutcome::PlaybackFailed(e) => {
            let mut message = String::new();
            push_str(&mut message, "TTS 播放失败: ");
            push_str(&mut message, e.as_str());
            assert(message@ =~= "TTS 播放失败: "@ + e@);
            NodeExecuteResult::Error { message }
        },
    }
}

/// Executes an asr node: wait for speech, `timeout_secs` cut to 32 bits
/// (default 10).
pub fn execute_asr(node: &TopologyNode, context: &IvrExecutionContext) -> (r: NodeExecuteResult)
    ensures
        r@ == ResultView::WaitForAsr(timeout_of(node.config@, 10)),
{
    let timeout_secs: u32 = match config_u64(node, "timeout_secs") {
        Some(v) => v as u32,
        None => 10,
    };
    NodeExecuteResult::WaitForAsr { timeout_secs }
}

// ---------------------------------------------------------------------------
// WAV encoding of 16-bit mono PCM
// ---------------------------------------------------------------------------

/// Little-endian bytes of a 16-bit value.
pub open spec fn le16(x: nat) -> Seq<u8> {
    seq![(x % 256) as u8, ((x / 256) % 256) as u8]
}

/// Little-endian bytes of a 32-bit value.
pub open spec fn le32(x: nat) -> Seq<u8> {
    seq![
        (x % 256) as u8,
        ((x / 256) % 256) as u8,
        ((x / 65536) % 256) as u8,
        ((x / 16777216) % 256) as u8,
    ]
}

/// The two's-complement 16-bit pattern of a sample.
pub open spec fn sample_bits(s: i16) -> nat {
    ((s as int + 65536) % 65536) as nat
}

/// The little-endian bytes of the first `n` samples.
pub open spec fn sample_bytes(s: Seq<i16>, n: int) -> Seq<u8>
    decreases n,
{
    if n <= 0 || n > s.len() {
        Seq::empty()
    } else {
        sample_bytes(s, n - 1) + le16(sample_bits(s[n - 1]))
    }
}

/// Byte length of the data chunk, kept to 32 bits.
pub open spec fn wav_data_len(samples: nat) -> nat {
    (samples * 2) % 0x1_0000_0000
}

/// A WAV file of 16-bit mono PCM: the 44-byte RIFF header, then the samples.
pub open spec fn wav_spec(s: Seq<i16>, rate: nat) -> Seq<u8> {
    let data_len = wav_data_len(s.len());
    seq![82u8, 73, 70, 70] + le32(36 + data_len) + seq![87u8, 65, 86, 69] + seq![102u8, 109, 116, 32]
        + le32(16) + le16(1) + le16(1) + le32(rate) + le32(rate * 2) + le16(2) + le16(16) + seq![
        100u8,
        97,
        116,
        97,
    ] + le32(data_len) + sample_bytes(s, s.len() as int)
}

fn push_le16(out: &mut Vec<u8>, x: u16)
    ensures
        final(out)@ == old(out)@ + le16(x as nat),
{
    out.push((x % 256) as u8);
    out.push(((x / 256) % 256) as u8);
    assert(final(out)@ =~= old(out)@ + le16(x as nat));
}

fn push_le32(out: &mut Vec<u8>, x: u32)
    ensures
        final(out)@ == old(out)@ + le32(x as nat),
{
    out.push((x % 256) as u8);
    out.push(((x / 256) % 256) as u8);
    out.push(((x / 65536) % 256) as u8);
    out.push(((x / 16777216) % 256) as u8);
    assert(final(out)@ =~= old(out)@ + le32(x as nat));
}

fn push_ascii4(out: &mut Vec<u8>, a: u8, b: u8, c: u8, d: u8)
    ensures
        final(out)@ == old(out)@ + seq![a, b, c, d],
{
    out.push(a);
    out.push(b);
    out.push(c);
    out.push(d);
    assert(final(out)@ =~= old(out)@ + seq![a, b, c, d]);
}

/// The bytes of a WAV file holding `samples` as 16-bit mono PCM at
/// `sample_rate`.
pub fn wav_bytes(samples: &[i16], sample_rate: u32) -> (r: Vec<u8>)
    requires
        samples@.len() * 2 <= usize::MAX,
        wav_data_len(samples@.len()) + 36 <= u32::MAX,
        sample_rate * 2 <= u32::MAX,
    ensures
        r@ == wav_spec(samples@, sample_rate as nat),
{
    let d: u64 = ((samples.len() as u64) * 2) % 0x1_0000_0000;
    let data_len = d as u32;
    let mut out: Vec<u8> = Vec::new();
    push_ascii4(&mut out, 82, 73, 70, 70);
    push_le32(&mut out, 36 + data_len);
    push_ascii4(&mut out, 87, 65, 86, 69);
    push_ascii4(&mut out, 102, 109, 116, 32);
    push_le32(&mut out, 16);
    push_le16(&mut out, 1);
    push_le16(&mut out, 1);
    push_le32(&mut out, sample_rate);
    push_le32(&mut out, sample_rate * 2);
    push_le16(&mut out, 2);
    push_le16(&mut out, 16);
    push_ascii4(&mut out, 100, 97, 116, 97);
    push_le32(&mut out, data_len);
    let ghost header = out@;
    let mut i: usize = 0;
    while i < samples.len()
        invariant
            0 <= i <= samples@.len(),
            out@ == header + sample_bytes(samples@, i as int),
        decreases samples@.len() - i,
    {
        let s = samples[i];
        let u: u16 = if s < 0 {
            (s as i32 + 65536) as u16
        } else {
            s as u16
        };
        assert(u as nat == sample_bits(s));
        push_le16(&mut out, u);
        assert(sample_bytes(samples@, i + 1) == sample_bytes(samples@, i as int) + le16(
            sample_bits(samples@[i as int]),
        ));
        assert(out@ =~= header + sample_bytes(samples@, i + 1));
        i = i + 1;
    }
    assert(out@ =~= wav_spec(samples@, sample_rate as nat));
    out
}

proof fn lemma_sample_bytes_len(s: Seq<i16>, n: int)
    requires
        0 <= n <= s.len(),
    ensures
        sample_bytes(s, n).len() == 2 * n,
    decreases n,
{
    if n > 0 {
        lemma_sample_bytes_len(s, n - 1);
    }
}

/// A WAV file is its 44-byte header and two bytes per sample.
pub proof fn lemma_wav_length(s: Seq<i16>, rate: nat)
    ensures
        wav_spec(s, rate).len() == 44 + 2 * s.len(),
{
    lemma_sample_bytes_len(s, s.len() as int);
}

} // verus!
