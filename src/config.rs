//! Configuration snapshot handed to the pipeline at the start of a session.
//! Durations are whole milliseconds.

use vstd::prelude::*;

verus! {

/// Speech recognition backend.
#[derive(Debug, Clone, Copy, PartialEq, Eq, Structural)]
pub enum SpeechEngine {
    Vosk,
    Whisper,
    Soniox,
}

impl SpeechEngine {
    /// Lower-case name of the engine.
    pub fn as_str(&self) -> (r: &'static str)
        ensures
            r@ == match self {
                SpeechEngine::Vosk => "vosk"@,
                SpeechEngine::Whisper => "whisper"@,
                SpeechEngine::Soniox => "soniox"@,
            },
    {
        match self {
            SpeechEngine::Vosk => "vosk",
            SpeechEngine::Whisper => "whisper",
            SpeechEngine::Soniox => "soniox",
        }
    }
}

impl Default for SpeechEngine {
    fn default() -> (r: Self)
        ensures
            r == SpeechEngine::Vosk,
    {
        SpeechEngine::Vosk
    }
}

/// Model size for offline recognition.
#[derive(Debug, Clone, Copy, PartialEq, Eq, Structural)]
pub enum ModelSize {
    Tiny,
    Small,
    Base,
    Medium,
    Large,
}

impl ModelSize {
    /// Lower-case name of the size.
    pub fn as_str(&self) -> (r: &'static str)
        ensures
            r@ == match self {
                ModelSize::Tiny => "tiny"@,
                ModelSize::Small => "small"@,
                ModelSize::Base => "base"@,
                ModelSize::Medium => "medium"@,
                ModelSize::Large => "large"@,
            },
    {
        match self {
            ModelSize::Tiny => "tiny",
            ModelSize::Small => "small",
            ModelSize::Base => "base",
            ModelSize::Medium => "medium",
            ModelSize::Large => "large",
        }
    }
}

impl Default for ModelSize {
    fn default() -> (r: Self)
        ensures
            r == ModelSize::Small,
    {
        ModelSize::Small
    }
}

/// Speech recognition settings.
#[derive(Debug, Clone)]
pub struct SpeechConfig {
    pub engine: SpeechEngine,
    pub language: String,
    pub model_size: ModelSize,
    /// Voice activity sensitivity, 1..=5.
    pub vad_sensitivity: u8,
    /// Silence that ends an utterance, in milliseconds.
    pub silence_timeout_ms: u32,
}

impl Default for SpeechConfig {
    fn default() -> (r: Self)
        ensures
            r.engine == SpeechEngine::Vosk,
            r.language@ == "en-us"@,
            r.model_size == ModelSize::Small,
            r.vad_sensitivity == 3,
            r.silence_timeout_ms == 2000,
    {
        SpeechConfig {
            engine: SpeechEngine::Vosk,
            language: String::from_str("en-us"),
            model_size: ModelSize::Small,
            vad_sensitivity: 3,
            silence_timeout_ms: 2000,
        }
    }
}

/// Audio input settings.
#[derive(Debug, Clone)]
pub struct AudioConfig {
    /// Input device by name; `None` is the default device.
    pub device_name: Option<String>,
    pub sample_rate: u32,
}

impl Default for AudioConfig {
    fn default() -> (r: Self)
        ensures
            r.device_name is None,
            r.sample_rate == 16000,
    {
        AudioConfig { device_name: None, sample_rate: 16000 }
    }
}

/// Realtime cloud settings. The credential is kept outside the saved file.
#[derive(Debug, Clone)]
pub struct SonioxConfig {
    pub api_key: Option<String>,
    pub enable_speaker_diarization: bool,
    pub enable_language_identification: bool,
}

impl Default for SonioxConfig {
    fn default() -> (r: Self)
        ensures
            r.api_key is None,
            !r.enable_speaker_diarization,
            !r.enable_language_identification,
    {
        SonioxConfig {
            api_key: None,
            enable_speaker_diarization: false,
            enable_language_identification: false,
        }
    }
}

/// User interface settings.
#[derive(Debug, Clone)]
pub struct UiConfig {
    pub start_minimized: bool,
    pub show_notifications: bool,
    pub show_partial_results: bool,
}

impl Default for UiConfig {
    fn default() -> (r: Self)
        ensures
            !r.start_minimized,
            r.show_notifications,
            r.show_partial_results,
    {
        UiConfig { start_minimized: false, show_notifications: true, show_partial_results: true }
    }
}

/// Keyboard shortcut settings.
#[derive(Debug, Clone)]
pub struct ShortcutsConfig {
    pub toggle_recognition: String,
}

impl Default for ShortcutsConfig {
    fn default() -> (r: Self)
        ensures
            r.toggle_recognition@ == "ctrl+ctrl"@,
    {
        ShortcutsConfig { toggle_recognition: String::from_str("ctrl+ctrl") }
    }
}

/// The whole configuration.
#[derive(Debug, Clone)]
pub struct AppConfig {
    pub speech: SpeechConfig,
    pub audio: AudioConfig,
    pub soniox: SonioxConfig,
    pub ui: UiConfig,
    pub shortcuts: ShortcutsConfig,
}

/// What a session reads of the configuration.
pub struct ConfigView {
    pub engine: SpeechEngine,
    pub language: Seq<char>,
    pub model_size: ModelSize,
    pub vad_sensitivity: u8,
    pub silence_timeout_ms: u32,
    pub device_name: Option<Seq<char>>,
    pub api_key: Option<Seq<char>>,
    pub enable_speaker_diarization: bool,
    pub enable_language_identification: bool,
}

pub open spec fn opt_view(o: Option<String>) -> Option<Seq<char>> {
    match o {
        Some(s) => Some(s@),
        None => None,
    }
}

impl View for AppConfig {
    type V = ConfigView;

    open spec fn view(&self) -> ConfigView {
        ConfigView {
            engine: self.speech.engine,
            language: self.speech.language@,
            model_size: self.speech.model_size,
            vad_sensitivity: self.speech.vad_sensitivity,
            silence_timeout_ms: self.speech.silence_timeout_ms,
            device_name: opt_view(self.audio.device_name),
            api_key: opt_view(self.soniox.api_key),
            enable_speaker_diarization: self.soniox.enable_speaker_diarization,
            enable_language_identification: self.soniox.enable_language_identification,
        }
    }
}

fn copy_opt(o: &Option<String>) -> (r: Option<String>)
    ensures
        opt_view(r) == opt_view(*o),
{
    match o {
        Some(s) => Some(s.clone()),
        None => None,
    }
}

impl AppConfig {
    /// A copy with the same settings.
    pub fn snapshot(&self) -> (r: AppConfig)
        ensures
            r@ == self@,
    {
        AppConfig {
            speech: SpeechConfig {
                engine: self.speech.engine,
                language: self.speech.language.clone(),
                model_size: self.speech.model_size,
                vad_sensitivity: self.speech.vad_sensitivity,
                silence_timeout_ms: self.speech.silence_timeout_ms,
            },
            audio: AudioConfig {
                device_name: copy_opt(&self.audio.device_name),
                sample_rate: self.audio.sample_rate,
            },
            soniox: SonioxConfig {
                api_key: copy_opt(&self.soniox.api_key),
                enable_speaker_diarization: self.soniox.enable_speaker_diarization,
                enable_language_identification: self.soniox.enable_language_identification,
            },
            ui: UiConfig {
                start_minimized: self.ui.start_minimized,
                show_notifications: self.ui.show_notifications,
                show_partial_results: self.ui.show_partial_results,
            },
            shortcuts: ShortcutsConfig {
                toggle_recognition: self.shortcuts.toggle_recognition.clone(),
            },
        }
    }
}

impl Default for AppConfig {
    fn default() -> (r: Self)
        ensures
            r.speech.engine == SpeechEngine::Vosk,
            r.speech.language@ == "en-us"@,
            r.speech.model_size == ModelSize::Small,
            r.speech.vad_sensitivity == 3,
            r.speech.silence_timeout_ms == 2000,
            r.audio.device_name is None,
            r.audio.sample_rate == 16000,
            r.soniox.api_key is None,
            !r.soniox.enable_speaker_diarization,
            !r.soniox.enable_language_identification,
            r.shortcuts.toggle_recognition@ == "ctrl+ctrl"@,
    {
        AppConfig {
            speech: SpeechConfig::default(),
            audio: AudioConfig::default(),
            soniox: SonioxConfig::default(),
            ui: UiConfig::default(),
            shortcuts: ShortcutsConfig::default(),
        }
    }
}

} // verus!
