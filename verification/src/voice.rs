//! Speech engine settings: the ASR defaults, the decision which engines the
//! environment enables, and the checks made before synthesis or model loading.
use vstd::prelude::*;
use crate::text::{chars_of, exec_skip_ws, skip_ws, string_from, str_eq};

verus! {

/// Synthesised speech: 16-bit mono PCM samples and their rate.
pub struct TtsResult {
    pub samples: Vec<i16>,
    pub sample_rate: u32,
}

/// Settings of the offline speech recogniser.
pub struct AsrConfig {
    pub model_path: String,
    pub tokens_path: String,
    /// Recognition language: `auto`, `zh`, `en`, `ja`, `ko` or `yue`.
    pub language: String,
    /// Whether inverse text normalisation formats numbers and dates.
    pub use_itn: bool,
    pub num_threads: i32,
}

impl Default for AsrConfig {
    fn default() -> (r: AsrConfig)
        ensures
            r.model_path@.len() == 0,
            r.tokens_path@.len() == 0,
            r.language@ == "auto"@,
            r.use_itn,
            r.num_threads == 2,
    {
        AsrConfig {
            model_path: String::new(),
            tokens_path: String::new(),
            language: string_from("auto"),
            use_itn: true,
            num_threads: 2,
        }
    }
}

/// Whether an environment flag value enables a feature: exactly `true`.
pub open spec fn flag_enabled_spec(v: Option<Seq<char>>) -> bool {
    match v {
        Some(s) => s == "true"@,
        None => false,
    }
}

pub open spec fn opt_string_view(o: Option<String>) -> Option<Seq<char>> {
    match o {
        Some(s) => Some(s@),
        None => None,
    }
}

pub fn flag_enabled(value: &Option<String>) -> (r: bool)
    ensures
        r == flag_enabled_spec(opt_string_view(*value)),
{
    match value {
        Some(v) => str_eq(v.as_str(), "true"),
        None => false,
    }
}

/// The recogniser configuration the environment selects: none unless the
/// enable flag is `true` and a model path is given; missing paths are empty
/// and a missing language is `auto`.
pub open spec fn asr_from_env_spec(
    enabled: Option<Seq<char>>,
    model: Option<Seq<char>>,
    tokens: Option<Seq<char>>,
    language: Option<Seq<char>>,
) -> Option<(Seq<char>, Seq<char>, Seq<char>)> {
    if !flag_enabled_spec(enabled) {
        None
    } else {
        let m = match model {
            Some(s) => s,
            None => Seq::empty(),
        };
        let t = match tokens {
            Some(s) => s,
            None => Seq::empty(),
        };
        let l = match language {
            Some(s) => s,
            None => "auto"@,
        };
        if m.len() == 0 {
            None
        } else {
            Some((m, t, l))
        }
    }
}

fn or_empty(v: Option<String>) -> (r: String)
    ensures
        r@ == match v {
            Some(s) => s@,
            None => Seq::<char>::empty(),
        },
{
    match v {
        Some(s) => s,
        None => String::new(),
    }
}

/// Recogniser settings from the values of the enable flag, model path,
/// tokens path and language variables.
pub fn asr_config_from_env(
    enabled: Option<String>,
    model_path: Option<String>,
    tokens_path: Option<String>,
    language: Option<String>,
) -> (r: Option<AsrConfig>)
    ensures
        match r {
            Some(c) => asr_from_env_spec(
                opt_string_view(enabled),
                opt_string_view(model_path),
                opt_string_view(tokens_path),
                opt_string_view(language),
            ) == Some((c.model_path@, c.tokens_path@, c.language@)) && c.use_itn && c.num_threads == 2,
            None => asr_from_env_spec(
                opt_string_view(enabled),
                opt_string_view(model_path),
                opt_string_view(tokens_path),
                opt_string_view(language),
            ) is None,
        },
{
    if !flag_enabled(&enabled) {
        return None;
    }
    let language = match language {
        Some(l) => l,
        None => string_from("auto"),
    };
    let model = or_empty(model_path);
    let tokens = or_empty(tokens_path);
    if model.as_str().is_empty() {
        return None;
    }
    let d = AsrConfig::default();
    Some(AsrConfig { model_path: model, tokens_path: tokens, language, ..d })
}

/// The model files of the speech synthesiser the environment enables.
pub struct TtsPaths {
    pub model_path: String,
    pub tokens_path: String,
    pub lexicon_path: Option<String>,
    pub dict_dir: Option<String>,
    pub data_dir: Option<String>,
}

/// The synthesiser files the environment selects: none unless the enable
/// flag is `true` and a model path is given; a missing tokens path is empty.
pub fn tts_paths_from_env(
    enabled: Option<String>,
    model_path: Option<String>,
    tokens_path: Option<String>,
    lexicon_path: Option<String>,
    dict_dir: Option<String>,
    data_dir: Option<String>,
) -> (r: Option<TtsPaths>)
    ensures
        match r {
            Some(p) => flag_enabled_spec(opt_string_view(enabled)) && opt_string_view(model_path)
                == Some(p.model_path@) && p.model_path@.len() > 0 && p.tokens_path@ == match tokens_path {
                Some(t) => t@,
                None => Seq::<char>::empty(),
            } && p.lexicon_path == lexicon_path && p.dict_dir == dict_dir && p.data_dir == data_dir,
            None => !flag_enabled_spec(opt_string_view(enabled)) || match model_path {
                Some(m) => m@.len() == 0,
                None => true,
            },
        },
{
    if !flag_enabled(&enabled) {
        return None;
    }
    let model = or_empty(model_path);
    if model.as_str().is_empty() {
        return None;
    }
    Some(TtsPaths {
        model_path: model,
        tokens_path: or_empty(tokens_path),
        lexicon_path,
        dict_dir,
        data_dir,
    })
}

/// Whether text is blank (empty after trimming whitespace); synthesis refuses it.
pub open spec fn blank_spec(t: Seq<char>) -> bool {
    skip_ws(t, 0, t.len() as int) == t.len()
}

pub fn is_blank_text(text: &str) -> (r: bool)
    ensures
        r == blank_spec(text@),
{
    let v = chars_of(text);
    exec_skip_ws(&v, 0, v.len()) == v.len()
}

} // verus!
