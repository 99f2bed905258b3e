//! Whisper model catalogue: which model file serves a model size.

use vstd::prelude::*;
use crate::config::ModelSize;

verus! {

/// Whisper model file information.
#[derive(Debug, Clone, Copy)]
pub struct WhisperModelInfo {
    pub name: &'static str,
    pub url: &'static str,
    pub size_mb: u32,
}

/// The Whisper model file for a size: name and size in MB; its URL is the
/// name under the whisper.cpp model repository.
pub open spec fn whisper_model(size: ModelSize) -> (Seq<char>, u32) {
    match size {
        ModelSize::Tiny => ("ggml-tiny.bin"@, 75),
        ModelSize::Base => ("ggml-base.bin"@, 142),
        ModelSize::Small => ("ggml-small.bin"@, 466),
        ModelSize::Medium => ("ggml-medium.bin"@, 1500),
        ModelSize::Large => ("ggml-large-v3.bin"@, 2900),
    }
}

/// The Whisper model file for a size.
pub fn get_model_info(size: ModelSize) -> (r: WhisperModelInfo)
    ensures
        r.name@ == whisper_model(size).0,
        r.size_mb == whisper_model(size).1,
        r.url@ == "https://huggingface.co/ggerganov/whisper.cpp/resolve/main/"@ + r.name@,
{
    let (name, url, size_mb): (&'static str, &'static str, u32) = match size {
        ModelSize::Tiny => ("ggml-tiny.bin", "https://huggingface.co/ggerganov/whisper.cpp/resolve/main/ggml-tiny.bin", 75),
        ModelSize::Base => ("ggml-base.bin", "https://huggingface.co/ggerganov/whisper.cpp/resolve/main/ggml-base.bin", 142),
        ModelSize::Small => ("ggml-small.bin", "https://huggingface.co/ggerganov/whisper.cpp/resolve/main/ggml-small.bin", 466),
        ModelSize::Medium => ("ggml-medium.bin", "https://huggingface.co/ggerganov/whisper.cpp/resolve/main/ggml-medium.bin", 1500),
        ModelSize::Large => ("ggml-large-v3.bin", "https://huggingface.co/ggerganov/whisper.cpp/resolve/main/ggml-large-v3.bin", 2900),
    };
    proof {
        reveal_strlit("ggml-tiny.bin");
        reveal_strlit("ggml-base.bin");
        reveal_strlit("ggml-small.bin");
        reveal_strlit("ggml-medium.bin");
        reveal_strlit("ggml-large-v3.bin");
        reveal_strlit("https://huggingface.co/ggerganov/whisper.cpp/resolve/main/");
        reveal_strlit("https://huggingface.co/ggerganov/whisper.cpp/resolve/main/ggml-tiny.bin");
        reveal_strlit("https://huggingface.co/ggerganov/whisper.cpp/resolve/main/ggml-base.bin");
        reveal_strlit("https://huggingface.co/ggerganov/whisper.cpp/resolve/main/ggml-small.bin");
        reveal_strlit("https://huggingface.co/ggerganov/whisper.cpp/resolve/main/ggml-medium.bin");
        reveal_strlit("https://huggingface.co/ggerganov/whisper.cpp/resolve/main/ggml-large-v3.bin");
        assert(url@ =~= "https://huggingface.co/ggerganov/whisper.cpp/resolve/main/"@ + name@);
    }
    WhisperModelInfo { name, url, size_mb }
}

} // verus!
