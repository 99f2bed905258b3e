//! VOSK model catalogue: which model serves a language and model size.

use vstd::prelude::*;
use crate::config::ModelSize;
use crate::text::{chars_equal, chars_of};

verus! {

/// VOSK model information.
#[derive(Debug, Clone, Copy)]
pub struct VoskModelInfo {
    pub name: &'static str,
    pub url: &'static str,
    pub size_mb: u32,
}

/// One catalogue entry: language, model name, size, download URL, MB.
pub type VoskEntry = (&'static str, &'static str, ModelSize, &'static str, u32);

/// The index of the first entry from `i` on for the language and size.
pub open spec fn vosk_match(t: Seq<VoskEntry>, language: Seq<char>, size: ModelSize, i: int) -> Option<int>
    decreases t.len() - i,
{
    if i < 0 || i >= t.len() {
        None
    } else if t[i].0@ == language && t[i].2 == size {
        Some(i)
    } else {
        vosk_match(t, language, size, i + 1)
    }
}

/// The VOSK catalogue, English first.
pub open spec fn vosk_catalogue() -> Seq<VoskEntry> {
    seq![
        ("en-us", "vosk-model-small-en-us-0.15", ModelSize::Small, "https://alphacephei.com/vosk/models/vosk-model-small-en-us-0.15.zip", 40u32),
        ("en-us", "vosk-model-en-us-0.22", ModelSize::Medium, "https://alphacephei.com/vosk/models/vosk-model-en-us-0.22.zip", 1800u32),
        ("en-us", "vosk-model-en-us-0.22-lgraph", ModelSize::Large, "https://alphacephei.com/vosk/models/vosk-model-en-us-0.22-lgraph.zip", 128u32),
        ("ru", "vosk-model-small-ru-0.22", ModelSize::Small, "https://alphacephei.com/vosk/models/vosk-model-small-ru-0.22.zip", 45u32),
        ("ru", "vosk-model-ru-0.42", ModelSize::Medium, "https://alphacephei.com/vosk/models/vosk-model-ru-0.42.zip", 1800u32),
        ("es", "vosk-model-small-es-0.42", ModelSize::Small, "https://alphacephei.com/vosk/models/vosk-model-small-es-0.42.zip", 39u32),
        ("de", "vosk-model-small-de-0.15", ModelSize::Small, "https://alphacephei.com/vosk/models/vosk-model-small-de-0.15.zip", 45u32),
        ("fr", "vosk-model-small-fr-0.22", ModelSize::Small, "https://alphacephei.com/vosk/models/vosk-model-small-fr-0.22.zip", 41u32),
        ("it", "vosk-model-small-it-0.22", ModelSize::Small, "https://alphacephei.com/vosk/models/vosk-model-small-it-0.22.zip", 48u32),
        ("pt", "vosk-model-small-pt-0.3", ModelSize::Small, "https://alphacephei.com/vosk/models/vosk-model-small-pt-0.3.zip", 31u32),
        ("zh", "vosk-model-small-cn-0.22", ModelSize::Small, "https://alphacephei.com/vosk/models/vosk-model-small-cn-0.22.zip", 42u32),
        ("hi", "vosk-model-small-hi-0.22", ModelSize::Small, "https://alphacephei.com/vosk/models/vosk-model-small-hi-0.22.zip", 42u32),
    ]
}

pub open spec fn entry_info_matches(r: VoskModelInfo, e: VoskEntry) -> bool {
    r.name == e.1 && r.url == e.3 && r.size_mb == e.4
}

/// The VOSK model for a language and size: the first catalogue entry for
/// both, or else the small English model.
pub fn get_model_info(language: &str, size: ModelSize) -> (r: Option<VoskModelInfo>)
    ensures
        r is Some,
        match vosk_match(vosk_catalogue(), language@, size, 0) {
            Some(i) => entry_info_matches(r->Some_0, vosk_catalogue()[i]),
            None => entry_info_matches(r->Some_0, vosk_catalogue()[0]),
        },
{
    let table: Vec<VoskEntry> = vec![
        ("en-us", "vosk-model-small-en-us-0.15", ModelSize::Small, "https://alphacephei.com/vosk/models/vosk-model-small-en-us-0.15.zip", 40u32),
        ("en-us", "vosk-model-en-us-0.22", ModelSize::Medium, "https://alphacephei.com/vosk/models/vosk-model-en-us-0.22.zip", 1800u32),
        ("en-us", "vosk-model-en-us-0.22-lgraph", ModelSize::Large, "https://alphacephei.com/vosk/models/vosk-model-en-us-0.22-lgraph.zip", 128u32),
        ("ru", "vosk-model-small-ru-0.22", ModelSize::Small, "https://alphacephei.com/vosk/models/vosk-model-small-ru-0.22.zip", 45u32),
        ("ru", "vosk-model-ru-0.42", ModelSize::Medium, "https://alphacephei.com/vosk/models/vosk-model-ru-0.42.zip", 1800u32),
        ("es", "vosk-model-small-es-0.42", ModelSize::Small, "https://alphacephei.com/vosk/models/vosk-model-small-es-0.42.zip", 39u32),
        ("de", "vosk-model-small-de-0.15", ModelSize::Small, "https://alphacephei.com/vosk/models/vosk-model-small-de-0.15.zip", 45u32),
        ("fr", "vosk-model-small-fr-0.22", ModelSize::Small, "https://alphacephei.com/vosk/models/vosk-model-small-fr-0.22.zip", 41u32),
        ("it", "vosk-model-small-it-0.22", ModelSize::Small, "https://alphacephei.com/vosk/models/vosk-model-small-it-0.22.zip", 48u32),
        ("pt", "vosk-model-small-pt-0.3", ModelSize::Small, "https://alphacephei.com/vosk/models/vosk-model-small-pt-0.3.zip", 31u32),
        ("zh", "vosk-model-small-cn-0.22", ModelSize::Small, "https://alphacephei.com/vosk/models/vosk-model-small-cn-0.22.zip", 42u32),
        ("hi", "vosk-model-small-hi-0.22", ModelSize::Small, "https://alphacephei.com/vosk/models/vosk-model-small-hi-0.22.zip", 42u32),
    ];
    proof {
        assert(table@ =~= vosk_catalogue());
    }
    let lang = chars_of(language);
    let mut i: usize = 0;
    while i < table.len()
        invariant
            table@ == vosk_catalogue(),
            lang@ == language@,
            i <= table@.len(),
            vosk_match(vosk_catalogue(), language@, size, 0) == vosk_match(
                vosk_catalogue(),
                language@,
                size,
                i as int,
            ),
        decreases table@.len() - i,
    {
        let (l, name, s, url, mb) = table[i];
        if s == size && chars_equal(&chars_of(l), &lang) {
            return Some(VoskModelInfo { name, url, size_mb: mb });
        }
        i = i + 1;
    }
    let (_, name, _, url, mb) = table[0];
    Some(VoskModelInfo { name, url, size_mb: mb })
}

} // verus!
