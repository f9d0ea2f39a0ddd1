//! User settings and application configuration.
//!
//! Reading and writing the settings file is done by the caller; this module
//! holds the values and their defaults.

use vstd::prelude::*;

verus! {

/// The hotkey used when none is configured.
pub open spec fn default_hotkey() -> Seq<char> {
    "Ctrl+Shift+KeyV"@
}

/// The id of the model used when none is configured.
pub open spec fn default_model_id() -> Seq<char> {
    "sherpa-zh"@
}

/// The model id used when the settings name none.
pub fn default_model() -> (s: String)
    ensures
        s@ == default_model_id(),
{
    "sherpa-zh".to_owned()
}

/// Persisted user settings.
#[derive(Debug, Clone)]
pub struct AppSettings {
    /// Hotkey in internal format, e.g. "Ctrl+Shift+KeyV".
    pub hotkey: String,
    /// Whether recognised text is pasted automatically.
    pub auto_paste: bool,
    /// Active recognition model id (e.g. "sherpa-zh", "sherpa-en").
    pub active_model: String,
}

impl Default for AppSettings {
    /// Ctrl+Shift+V, automatic pasting, the bundled Chinese model.
    fn default() -> (s: Self)
        ensures
            s.hotkey@ == default_hotkey(),
            s.auto_paste,
            s.active_model@ == default_model_id(),
    {
        AppSettings {
            hotkey: "Ctrl+Shift+KeyV".to_owned(),
            auto_paste: true,
            active_model: default_model(),
        }
    }
}

/// Where the recognition models are and how audio is recorded.
#[derive(Debug, Clone)]
pub struct AppConfig {
    /// Directory of the speech recognition model.
    pub model_path: String,
    /// Punctuation model file; empty when there is none.
    pub punct_model_path: String,
    /// Recording sample rate in Hz.
    pub sample_rate: u32,
}

impl Default for AppConfig {
    /// The bundled Chinese model, no punctuation model, 16 kHz.
    fn default() -> (c: Self)
        ensures
            c.model_path@
                == "resources/models/sherpa-zh/sherpa-onnx-zipformer-multi-zh-hans-2023-9-2"@,
            c.punct_model_path@ == Seq::<char>::empty(),
            c.sample_rate == 16000,
    {
        AppConfig {
            model_path: "resources/models/sherpa-zh/sherpa-onnx-zipformer-multi-zh-hans-2023-9-2".to_owned(),
            punct_model_path: String::new(),
            sample_rate: 16000,
        }
    }
}

} // verus!
