//! Dictation pipeline core: voice-activity segmentation, spoken-command
//! post-processing, the realtime streaming protocol and the session state
//! machine that ties them together.

pub mod capture;
pub mod command_processor;
pub mod config;
pub mod decimal;
pub mod gpu_info;
pub mod injector;
pub mod manager;
pub mod soniox;
pub mod text;
pub mod vad;
pub mod vosk_models;
pub mod whisper_models;
