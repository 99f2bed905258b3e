//! Spoken-command post-processing: action phrases ("undo", "select all")
//! are detected in the utterance, and spoken punctuation and whitespace
//! words ("period", "new line") become the characters they name.

use vstd::prelude::*;
use crate::text::{chars_equal, chars_of, collapse, collapse_spaces, contains, contains_seq, string_of, trim, trimmed};

verus! {

/// What `str::to_lowercase` makes of a text.
pub uninterp spec fn lower_of(s: Seq<char>) -> Seq<char>;

/// What a case-insensitive, whole-word replacement of `phrase` by
/// `replacement` makes of `text` (ASCII word boundaries, ASCII case folding,
/// leftmost non-overlapping matches).
pub uninterp spec fn whole_word_replaced(text: Seq<char>, phrase: Seq<char>, replacement: Seq<char>) -> Seq<char>;

/// Relies on `str::to_lowercase`: the result depends on the characters alone,
/// and an empty text stays empty.
#[verifier::external_body]
pub(crate) fn lowercase(s: &str) -> (r: String)
    ensures
        r@ == lower_of(s@),
        s@.len() == 0 ==> r@.len() == 0,
{
    s.to_lowercase()
}

/// Relies on `regex_lite::Regex::replace_all` with the pattern
/// `(?i)\b<phrase>\b`, the phrase quoted by `regex_lite::escape`, and the
/// replacement taken literally (`NoExpand`). A quoted phrase always compiles;
/// should it not, the text is returned as it is.
#[verifier::external_body]
fn replace_whole_word(text: &str, phrase: &str, replacement: &str) -> (r: String)
    ensures
        r@ == whole_word_replaced(text@, phrase@, replacement@),
{
    match regex_lite::Regex::new(&format!(r"(?i)\b{}\b", regex_lite::escape(phrase))) {
        Ok(re) => re.replace_all(text, regex_lite::NoExpand(replacement)).into_owned(),
        Err(_) => text.to_string(),
    }
}

/// The views of a sequence of string slices.
pub open spec fn strs_view(v: Seq<&'static str>) -> Seq<Seq<char>> {
    v.map_values(|s: &'static str| s@)
}

/// The views of a sequence of strings.
pub open spec fn strings_view(v: Seq<String>) -> Seq<Seq<char>> {
    v.map_values(|s: String| s@)
}

/// The command tables of a processor.
pub struct CommandTables {
    /// Spoken phrases replaced by text, in the order they are applied.
    pub phrases: Seq<Seq<char>>,
    /// The text each phrase becomes.
    pub symbols: Seq<Seq<char>>,
    /// Action phrases, in the order they are reported.
    pub actions: Seq<Seq<char>>,
}

impl CommandTables {
    pub open spec fn wf(self) -> bool {
        self.phrases.len() == self.symbols.len()
    }
}

/// The name of an action: its phrase with each space replaced by `_`.
pub open spec fn action_name(phrase: Seq<char>) -> Seq<char> {
    phrase.map_values(|c: char| if c == ' ' { '_' } else { c })
}

/// The names of the action phrases that occur in `lower`, in table order.
pub open spec fn detected_actions(lower: Seq<char>, actions: Seq<Seq<char>>) -> Seq<Seq<char>>
    decreases actions.len(),
{
    if actions.len() == 0 {
        Seq::empty()
    } else {
        let found = detected_actions(lower, actions.drop_last());
        if contains_seq(lower, actions.last()) {
            found.push(action_name(actions.last()))
        } else {
            found
        }
    }
}

/// `text` after each phrase of the table, in order, has been replaced
/// by its symbol.
pub open spec fn replaced_phrases(text: Seq<char>, phrases: Seq<Seq<char>>, symbols: Seq<Seq<char>>) -> Seq<char>
    recommends
        phrases.len() == symbols.len(),
    decreases phrases.len(),
{
    if phrases.len() == 0 || symbols.len() == 0 {
        text
    } else {
        whole_word_replaced(
            replaced_phrases(text, phrases.drop_last(), symbols.drop_last()),
            phrases.last(),
            symbols.last(),
        )
    }
}

/// The text to type for an utterance: empty when the whole utterance
/// (trimmed, lower case) is an action phrase; otherwise the utterance with
/// the phrases replaced and its runs of spaces collapsed (the newlines and
/// tabs that commands produce stay).
pub open spec fn display_text(t: CommandTables, text: Seq<char>) -> Seq<char> {
    let lower = lower_of(text);
    if detected_actions(lower, t.actions).len() > 0 && t.actions.contains(trimmed(lower)) {
        Seq::empty()
    } else {
        collapse_spaces(replaced_phrases(text, t.phrases, t.symbols))
    }
}

/// The tables a new processor holds.
pub open spec fn default_tables() -> CommandTables {
    CommandTables {
        phrases: seq![
            "period"@, "full stop"@, "comma"@, "question mark"@, "exclamation mark"@,
            "exclamation point"@, "colon"@, "semicolon"@, "apostrophe"@, "open quote"@,
            "close quote"@, "quote"@, "open parenthesis"@, "close parenthesis"@,
            "open bracket"@, "close bracket"@, "hyphen"@, "dash"@, "underscore"@, "at sign"@,
            "hash"@, "hashtag"@, "dollar sign"@, "percent"@, "ampersand"@, "asterisk"@,
            "plus sign"@, "equals sign"@, "slash"@, "backslash"@, "new line"@, "newline"@,
            "new paragraph"@, "tab"@, "space"@,
        ],
        symbols: seq![
            "."@, "."@, ","@, "?"@, "!"@, "!"@, ":"@, ";"@, "'"@, "\""@, "\""@, "\""@, "("@,
            ")"@, "["@, "]"@, "-"@, "-"@, "_"@, "@"@, "#"@, "#"@, "$"@, "%"@, "&"@, "*"@,
            "+"@, "="@, "/"@, "\\"@, "\n"@, "\n"@, "\n\n"@, "\t"@, " "@,
        ],
        actions: seq![
            "delete that"@, "scratch that"@, "undo"@, "undo that"@, "redo"@, "redo that"@,
            "select all"@, "copy"@, "copy that"@, "cut"@, "cut that"@, "paste"@,
            "paste that"@, "capitalize"@, "uppercase"@, "lowercase"@,
        ],
    }
}

/// Processes recognized text for spoken commands. Stateless.
pub struct CommandProcessor {
    phrases: Vec<&'static str>,
    symbols: Vec<&'static str>,
    actions: Vec<&'static str>,
}

impl View for CommandProcessor {
    type V = CommandTables;

    closed spec fn view(&self) -> CommandTables {
        CommandTables {
            phrases: strs_view(self.phrases@),
            symbols: strs_view(self.symbols@),
            actions: strs_view(self.actions@),
        }
    }
}

fn copy_strs(v: &Vec<&'static str>) -> (r: Vec<&'static str>)
    ensures
        r@ == v@,
{
    let mut out: Vec<&'static str> = Vec::new();
    let mut i: usize = 0;
    while i < v.len()
        invariant
            i <= v@.len(),
            out@ == v@.subrange(0, i as int),
        decreases v@.len() - i,
    {
        out.push(v[i]);
        i = i + 1;
        proof {
            assert(out@ =~= v@.subrange(0, i as int));
        }
    }
    proof {
        assert(out@ =~= v@);
    }
    out
}

/// The name of an action phrase: each space becomes `_`.
fn action_name_of(phrase: &Vec<char>) -> (r: String)
    ensures
        r@ == action_name(phrase@),
{
    let mut out: Vec<char> = Vec::new();
    let mut i: usize = 0;
    while i < phrase.len()
        invariant
            i <= phrase@.len(),
            out@ == action_name(phrase@.subrange(0, i as int)),
        decreases phrase@.len() - i,
    {
        let c = phrase[i];
        out.push(if c == ' ' { '_' } else { c });
        i = i + 1;
        proof {
            assert(out@ =~= action_name(phrase@.subrange(0, i as int)));
        }
    }
    proof {
        assert(phrase@.subrange(0, phrase@.len() as int) =~= phrase@);
    }
    string_of(&out)
}

impl CommandProcessor {
    #[verifier::type_invariant]
    spec fn inv(&self) -> bool {
        self.phrases@.len() == self.symbols@.len()
    }

    /// A processor with the standard punctuation, whitespace and action tables.
    pub fn new() -> (r: Self)
        ensures
            r@ == default_tables(),
            r@.wf(),
    {
        let phrases: Vec<&'static str> = vec![
            "period", "full stop", "comma", "question mark", "exclamation mark",
            "exclamation point", "colon", "semicolon", "apostrophe", "open quote",
            "close quote", "quote", "open parenthesis", "close parenthesis", "open bracket",
            "close bracket", "hyphen", "dash", "underscore", "at sign", "hash", "hashtag",
            "dollar sign", "percent", "ampersand", "asterisk", "plus sign", "equals sign",
            "slash", "backslash", "new line", "newline", "new paragraph", "tab", "space",
        ];
        let symbols: Vec<&'static str> = vec![
            ".", ".", ",", "?", "!", "!", ":", ";", "'", "\"", "\"", "\"", "(", ")", "[", "]",
            "-", "-", "_", "@", "#", "#", "$", "%", "&", "*", "+", "=", "/", "\\", "\n", "\n",
            "\n\n", "\t", " ",
        ];
        let actions: Vec<&'static str> = vec![
            "delete that", "scratch that", "undo", "undo that", "redo", "redo that",
            "select all", "copy", "copy that", "cut", "cut that", "paste", "paste that",
            "capitalize", "uppercase", "lowercase",
        ];
        let r = CommandProcessor { phrases, symbols, actions };
        proof {
            assert(r@.phrases =~= default_tables().phrases);
            assert(r@.symbols =~= default_tables().symbols);
            assert(r@.actions =~= default_tables().actions);
        }
        r
    }

    /// Splits an utterance into the text to type and the actions it names:
    /// the names of the action phrases found (case-insensitively) anywhere in
    /// it, in table order, and the text as `display_text` states it.
    pub fn process(&self, text: &str) -> (r: (String, Vec<String>))
        ensures
            r.0@ == display_text(self@, text@),
            strings_view(r.1@) == detected_actions(lower_of(text@), self@.actions),
    {
        proof {
            use_type_invariant(self);
        }
        let lower = lowercase(text);
        let found = self.detect_actions(lower.as_str());
        if found.len() > 0 && self.is_action_phrase(lower.as_str()) {
            return (String::new(), found);
        }
        let mut current = text.to_string();
        let mut j: usize = 0;
        while j < self.phrases.len()
            invariant
                j <= self@.phrases.len(),
                self@.wf(),
                self@.phrases == strs_view(self.phrases@),
                self@.symbols == strs_view(self.symbols@),
                current@ == replaced_phrases(
                    text@,
                    self@.phrases.subrange(0, j as int),
                    self@.symbols.subrange(0, j as int),
                ),
            decreases self@.phrases.len() - j,
        {
            let next = replace_whole_word(current.as_str(), self.phrases[j], self.symbols[j]);
            proof {
                let p = self@.phrases.subrange(0, j as int + 1);
                let s = self@.symbols.subrange(0, j as int + 1);
                assert(p.drop_last() =~= self@.phrases.subrange(0, j as int));
                assert(s.drop_last() =~= self@.symbols.subrange(0, j as int));
            }
            current = next;
            j = j + 1;
        }
        proof {
            assert(self@.phrases.subrange(0, self@.phrases.len() as int) =~= self@.phrases);
            assert(self@.symbols.subrange(0, self@.symbols.len() as int) =~= self@.symbols);
        }
        let squeezed = collapse(&chars_of(current.as_str()));
        (string_of(&squeezed), found)
    }

    /// The names of the action phrases that occur in an already lower-cased
    /// utterance, in table order.
    pub fn detect_actions(&self, lower: &str) -> (r: Vec<String>)
        ensures
            strings_view(r@) == detected_actions(lower@, self@.actions),
    {
        let lower_chars = chars_of(lower);
        let mut found: Vec<String> = Vec::new();
        let mut i: usize = 0;
        while i < self.actions.len()
            invariant
                i <= self@.actions.len(),
                self@.actions == strs_view(self.actions@),
                lower_chars@ == lower@,
                strings_view(found@) == detected_actions(lower@, self@.actions.subrange(0, i as int)),
            decreases self@.actions.len() - i,
        {
            let phrase = chars_of(self.actions[i]);
            proof {
                let pre = self@.actions.subrange(0, i as int + 1);
                assert(pre.drop_last() =~= self@.actions.subrange(0, i as int));
                assert(pre.last() == phrase@);
            }
            if contains(&lower_chars, &phrase) {
                let name = action_name_of(&phrase);
                let ghost before = found@;
                found.push(name);
                proof {
                    assert(found@.drop_last() =~= before);
                    assert(strings_view(found@) =~= strings_view(before).push(name@));
                }
            }
            i = i + 1;
        }
        proof {
            assert(self@.actions.subrange(0, self@.actions.len() as int) =~= self@.actions);
        }
        found
    }

    /// Whether an already lower-cased utterance, trimmed, is exactly one of
    /// the action phrases.
    pub fn is_action_phrase(&self, lower: &str) -> (r: bool)
        ensures
            r == self@.actions.contains(trimmed(lower@)),
    {
        let whole = trim(&chars_of(lower));
        let mut k: usize = 0;
        while k < self.actions.len()
            invariant
                k <= self@.actions.len(),
                self@.actions == strs_view(self.actions@),
                whole@ == trimmed(lower@),
                forall|m: int| 0 <= m < k ==> self@.actions[m] != whole@,
            decreases self@.actions.len() - k,
        {
            let phrase = chars_of(self.actions[k]);
            if chars_equal(&whole, &phrase) {
                proof {
                    assert(self@.actions[k as int] == whole@);
                }
                return true;
            }
            k = k + 1;
        }
        false
    }

    /// The spoken phrases that become text, in the order they are applied.
    pub fn text_commands(&self) -> (r: Vec<&'static str>)
        ensures
            strs_view(r@) == self@.phrases,
    {
        copy_strs(&self.phrases)
    }

    /// The action phrases, in the order they are reported.
    pub fn action_commands(&self) -> (r: Vec<&'static str>)
        ensures
            strs_view(r@) == self@.actions,
    {
        copy_strs(&self.actions)
    }
}

impl Default for CommandProcessor {
    fn default() -> (r: Self)
        ensures
            r@ == default_tables(),
    {
        Self::new()
    }
}

} // verus!
