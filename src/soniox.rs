//! Realtime cloud streaming protocol: the configuration handshake, PCM
//! framing of audio, and decoding of transcription responses into partial
//! and final text. The connection itself (a WebSocket) is driven by the
//! caller; this module decides what is sent and what each response means.

use vstd::prelude::*;
use crate::decimal::{decimal, decimal_chars};
use crate::text::{chars_equal, chars_of, string_of};

verus! {

/// Model requested in the handshake.
pub const MODEL: &'static str = "stt-rt-v3";

/// Audio format requested in the handshake.
pub const AUDIO_FORMAT: &'static str = "pcm_s16le";

/// Language setting that asks the service to identify the language.
pub const AUTO_LANGUAGE: &'static str = "auto";

/// Error code the service returns for a rejected credential.
pub const UNAUTHORIZED: u32 = 401;

/// One transcribed token.
pub struct SonioxToken {
    pub text: String,
    pub start_ms: u64,
    pub end_ms: u64,
    pub is_final: bool,
    pub speaker: Option<String>,
    pub language: Option<String>,
}

/// One decoded response: tokens, or an error.
pub struct SonioxResponse {
    pub tokens: Vec<SonioxToken>,
    pub audio_final_proc_ms: u64,
    pub audio_total_proc_ms: u64,
    pub error_code: Option<u32>,
    pub error_message: Option<String>,
}

/// What the client reports to its consumer.
#[derive(Debug, Clone, PartialEq)]
pub enum SonioxResult {
    Partial(String),
    Final(String),
    Error(String),
    Closed,
}

/// The meaning of a `SonioxResult`, with text as characters.
pub enum ResultView {
    Partial(Seq<char>),
    Final(Seq<char>),
    Error(Seq<char>),
    Closed,
}

impl View for SonioxResult {
    type V = ResultView;

    open spec fn view(&self) -> ResultView {
        match self {
            SonioxResult::Partial(t) => ResultView::Partial(t@),
            SonioxResult::Final(t) => ResultView::Final(t@),
            SonioxResult::Error(t) => ResultView::Error(t@),
            SonioxResult::Closed => ResultView::Closed,
        }
    }
}

pub open spec fn results_view(v: Seq<SonioxResult>) -> Seq<ResultView> {
    v.map_values(|r: SonioxResult| r@)
}

/// The first message of a session: format, credential and options.
#[derive(Debug)]
pub struct SonioxHandshake {
    pub api_key: String,
    pub model: String,
    pub audio_format: String,
    pub sample_rate: u32,
    pub num_channels: u32,
    /// Empty when the language is identified by the service.
    pub language_hints: Vec<String>,
    pub enable_endpoint_detection: bool,
    pub enable_language_identification: bool,
    /// Present only when diarization is asked for.
    pub enable_speaker_diarization: Option<bool>,
}

/// The fixed part of every handshake: model, audio format, 16 kHz mono.
pub open spec fn handshake_format(h: SonioxHandshake) -> bool {
    &&& h.model@ == MODEL@
    &&& h.audio_format@ == AUDIO_FORMAT@
    &&& h.sample_rate == 16000
    &&& h.num_channels == 1
}

/// Texts of the tokens whose finality is `fin`, concatenated in order.
pub open spec fn joined_text(tokens: Seq<SonioxToken>, fin: bool) -> Seq<char>
    decreases tokens.len(),
{
    if tokens.len() == 0 {
        Seq::empty()
    } else {
        let pre = joined_text(tokens.drop_last(), fin);
        if tokens.last().is_final == fin {
            pre + tokens.last().text@
        } else {
            pre
        }
    }
}

/// The message reported for an error response.
pub open spec fn error_text(code: u32, message: Option<String>) -> Seq<char> {
    match message {
        Some(m) => m@,
        None => "Error code: "@ + decimal(code as nat),
    }
}

/// Decoding one response after the partial text `prev` was last seen:
/// the results, the partial text now seen, and whether the session goes on.
/// An error ends the session. Otherwise the final tokens make one `Final`
/// (when non-empty) and the other tokens one `Partial`, reported only when
/// non-empty and different from `prev`.
pub open spec fn decode_response(prev: Seq<char>, resp: SonioxResponse) -> (Seq<ResultView>, Seq<char>, bool) {
    match resp.error_code {
        Some(code) => (seq![ResultView::Error(error_text(code, resp.error_message))], prev, false),
        None => {
            let f = joined_text(resp.tokens@, true);
            let p = joined_text(resp.tokens@, false);
            let finals = if f.len() > 0 { seq![ResultView::Final(f)] } else { Seq::empty() };
            let partials = if p != prev && p.len() > 0 {
                seq![ResultView::Partial(p)]
            } else {
                Seq::empty()
            };
            (finals + partials, p, true)
        },
    }
}

/// Little-endian bytes of 16-bit samples, two per sample.
pub open spec fn le_bytes(samples: Seq<i16>) -> Seq<u8>
    decreases samples.len(),
{
    if samples.len() == 0 {
        Seq::empty()
    } else {
        let u = samples.last() as u16;
        le_bytes(samples.drop_last()).push((u % 256) as u8).push((u / 256) as u8)
    }
}

/// Why a client call was refused.
#[derive(Debug, Clone, Copy, PartialEq, Eq)]
pub enum ClientError {
    AlreadyConnected,
    NotConnected,
}

/// Why a credential check failed.
#[derive(Debug, Clone, PartialEq)]
pub enum CredentialError {
    /// The service rejected the credential.
    InvalidApiKey,
    /// The service answered with another error code and message.
    Server(u32, String),
}

/// Client state: the session options, whether it is streaming, and the
/// partial text last reported.
pub struct ClientView {
    pub api_key: Seq<char>,
    pub language: Seq<char>,
    pub enable_speaker_diarization: bool,
    pub enable_language_identification: bool,
    pub connected: bool,
    pub partial: Seq<char>,
}

/// Realtime streaming client.
pub struct SonioxClient {
    api_key: String,
    language: String,
    enable_speaker_diarization: bool,
    enable_language_identification: bool,
    connected: bool,
    current_partial: String,
}

impl View for SonioxClient {
    type V = ClientView;

    closed spec fn view(&self) -> ClientView {
        ClientView {
            api_key: self.api_key@,
            language: self.language@,
            enable_speaker_diarization: self.enable_speaker_diarization,
            enable_language_identification: self.enable_language_identification,
            connected: self.connected,
            partial: self.current_partial@,
        }
    }
}

/// The handshake a client with this view sends.
pub open spec fn session_handshake(c: ClientView, h: SonioxHandshake) -> bool {
    let auto = c.language == AUTO_LANGUAGE@;
    &&& handshake_format(h)
    &&& h.api_key@ == c.api_key
    &&& h.language_hints@.len() == (if auto { 0int } else { 1int })
    &&& !auto ==> h.language_hints@[0]@ == c.language
    &&& h.enable_endpoint_detection
    &&& h.enable_language_identification == (c.enable_language_identification || auto)
    &&& h.enable_speaker_diarization == (if c.enable_speaker_diarization { Some(true) } else { None })
}

fn is_auto(language: &String) -> (r: bool)
    ensures
        r == (language@ == AUTO_LANGUAGE@),
{
    chars_equal(&chars_of(language.as_str()), &chars_of(AUTO_LANGUAGE))
}

/// Little-endian bytes of the samples, as `le_bytes` states.
pub fn pcm_le_bytes(samples: &[i16]) -> (r: Vec<u8>)
    ensures
        r@ == le_bytes(samples@),
{
    let mut out: Vec<u8> = Vec::new();
    let mut i: usize = 0;
    while i < samples.len()
        invariant
            i <= samples@.len(),
            out@ == le_bytes(samples@.subrange(0, i as int)),
        decreases samples@.len() - i,
    {
        let u = samples[i] as u16;
        proof {
            let t = samples@.subrange(0, i as int + 1);
            assert(t.drop_last() =~= samples@.subrange(0, i as int));
            assert(t.last() == samples@[i as int]);
        }
        out.push((u % 256) as u8);
        out.push((u / 256) as u8);
        i = i + 1;
    }
    proof {
        assert(samples@.subrange(0, samples@.len() as int) =~= samples@);
    }
    out
}

/// Concatenated texts of the tokens whose finality is `fin`.
fn join_tokens(tokens: &Vec<SonioxToken>, fin: bool) -> (r: String)
    ensures
        r@ == joined_text(tokens@, fin),
{
    let mut out = String::new();
    let mut i: usize = 0;
    while i < tokens.len()
        invariant
            i <= tokens@.len(),
            out@ == joined_text(tokens@.subrange(0, i as int), fin),
        decreases tokens@.len() - i,
    {
        proof {
            let t = tokens@.subrange(0, i as int + 1);
            assert(t.drop_last() =~= tokens@.subrange(0, i as int));
        }
        if tokens[i].is_final == fin {
            out.append(tokens[i].text.as_str());
        }
        i = i + 1;
    }
    proof {
        assert(tokens@.subrange(0, tokens@.len() as int) =~= tokens@);
    }
    out
}

fn error_message_of(code: u32, message: &Option<String>) -> (r: String)
    ensures
        r@ == error_text(code, *message),
{
    match message {
        Some(m) => m.clone(),
        None => {
            let prefix = String::from_str("Error code: ");
            prefix.concat(string_of(&decimal_chars(code as u64)).as_str())
        },
    }
}

/// The handshake for a credential check: English hint, no endpoint
/// detection, no language identification, no diarization.
pub fn credential_check_handshake(api_key: &str) -> (h: SonioxHandshake)
    ensures
        handshake_format(h),
        h.api_key@ == api_key@,
        h.language_hints@.len() == 1,
        h.language_hints@[0]@ == "en"@,
        !h.enable_endpoint_detection,
        !h.enable_language_identification,
        h.enable_speaker_diarization is None,
{
    let mut hints: Vec<String> = Vec::new();
    hints.push(String::from_str("en"));
    SonioxHandshake {
        api_key: String::from_str(api_key),
        model: String::from_str(MODEL),
        audio_format: String::from_str(AUDIO_FORMAT),
        sample_rate: 16000,
        num_channels: 1,
        language_hints: hints,
        enable_endpoint_detection: false,
        enable_language_identification: false,
        enable_speaker_diarization: None,
    }
}

/// Classifies the first answer to a credential check: an error code of 401
/// is a rejected credential, another code a server error with its message
/// (empty when none came), and no error code a success.
pub fn credential_check_outcome(resp: &SonioxResponse) -> (r: Result<(), CredentialError>)
    ensures
        resp.error_code is None <==> r is Ok,
        resp.error_code == Some(UNAUTHORIZED) <==> r == Err::<(), CredentialError>(
            CredentialError::InvalidApiKey,
        ),
        r matches Err(CredentialError::Server(c, m)) ==> resp.error_code == Some(c) && c != UNAUTHORIZED
            && m@ == (match resp.error_message {
            Some(t) => t@,
            None => Seq::empty(),
        }),
{
    match resp.error_code {
        None => Ok(()),
        Some(code) => {
            if code == UNAUTHORIZED {
                Err(CredentialError::InvalidApiKey)
            } else {
                let msg = match &resp.error_message {
                    Some(m) => m.clone(),
                    None => String::new(),
                };
                Err(CredentialError::Server(code, msg))
            }
        },
    }
}

impl SonioxClient {
    /// A disconnected client with the given session options.
    pub fn new(
        api_key: String,
        language: String,
        enable_speaker_diarization: bool,
        enable_language_identification: bool,
    ) -> (r: Self)
        ensures
            r@ == (ClientView {
                api_key: api_key@,
                language: language@,
                enable_speaker_diarization,
                enable_language_identification,
                connected: false,
                partial: Seq::empty(),
            }),
    {
        SonioxClient {
            api_key,
            language,
            enable_speaker_diarization,
            enable_language_identification,
            connected: false,
            current_partial: String::new(),
        }
    }

    /// Starts a session: refused while one is streaming; otherwise the
    /// client is streaming, with no partial text seen, and the handshake to
    /// send first is returned.
    pub fn connect(&mut self) -> (r: Result<SonioxHandshake, ClientError>)
        ensures
            old(self)@.connected ==> r == Err::<SonioxHandshake, ClientError>(ClientError::AlreadyConnected)
                && final(self)@ == old(self)@,
            !old(self)@.connected ==> r is Ok && session_handshake(old(self)@, r->Ok_0)
                && final(self)@ == (ClientView { connected: true, partial: Seq::empty(), ..old(self)@ }),
    {
        if self.connected {
            return Err(ClientError::AlreadyConnected);
        }
        let auto = is_auto(&self.language);
        let mut hints: Vec<String> = Vec::new();
        if !auto {
            hints.push(self.language.clone());
        }
        let h = SonioxHandshake {
            api_key: self.api_key.clone(),
            model: String::from_str(MODEL),
            audio_format: String::from_str(AUDIO_FORMAT),
            sample_rate: 16000,
            num_channels: 1,
            language_hints: hints,
            enable_endpoint_detection: true,
            enable_language_identification: self.enable_language_identification || auto,
            enable_speaker_diarization: if self.enable_speaker_diarization { Some(true) } else { None },
        };
        self.connected = true;
        self.current_partial = String::new();
        Ok(h)
    }

    /// The frame to queue for the samples: their little-endian bytes, or
    /// `NotConnected` when no session is streaming.
    pub fn send_audio(&self, samples: &[i16]) -> (r: Result<Vec<u8>, ClientError>)
        ensures
            self@.connected <==> r is Ok,
            r is Ok ==> r->Ok_0@ == le_bytes(samples@),
            r is Err ==> r == Err::<Vec<u8>, ClientError>(ClientError::NotConnected),
    {
        if !self.connected {
            return Err(ClientError::NotConnected);
        }
        Ok(pcm_le_bytes(samples))
    }

    /// Ends the session; calling it again changes nothing.
    pub fn disconnect(&mut self)
        ensures
            final(self)@ == (ClientView { connected: false, ..old(self)@ }),
    {
        self.connected = false;
    }

    pub fn is_connected(&self) -> (r: bool)
        ensures
            r == self@.connected,
    {
        self.connected
    }

    /// Decodes one response, as `decode_response` states: returns the
    /// results to report and whether the session goes on; an error response
    /// ends the session.
    pub fn handle_response(&mut self, resp: &SonioxResponse) -> (r: (Vec<SonioxResult>, bool))
        ensures
            results_view(r.0@) == decode_response(old(self)@.partial, *resp).0,
            final(self)@.partial == decode_response(old(self)@.partial, *resp).1,
            r.1 == decode_response(old(self)@.partial, *resp).2,
            final(self)@ == (ClientView {
                partial: final(self)@.partial,
                connected: old(self)@.connected && r.1,
                ..old(self)@
            }),
    {
        let mut out: Vec<SonioxResult> = Vec::new();
        match resp.error_code {
            Some(code) => {
                let msg = error_message_of(code, &resp.error_message);
                out.push(SonioxResult::Error(msg));
                self.connected = false;
                proof {
                    assert(results_view(out@) =~= decode_response(old(self)@.partial, *resp).0);
                }
                (out, false)
            },
            None => {
                let f = join_tokens(&resp.tokens, true);
                let p = join_tokens(&resp.tokens, false);
                let same = chars_equal(&chars_of(p.as_str()), &chars_of(self.current_partial.as_str()));
                let fin_empty = f.as_str().is_empty();
                if !fin_empty {
                    out.push(SonioxResult::Final(f));
                }
                let p_empty = p.as_str().is_empty();
                if !same && !p_empty {
                    out.push(SonioxResult::Partial(p.clone()));
                }
                self.current_partial = p;
                proof {
                    assert(results_view(out@) =~= decode_response(old(self)@.partial, *resp).0);
                }
                (out, true)
            },
        }
    }
}

/// In one response the final tokens make at most one `Final` and the others
/// at most one `Partial`; with one final and one non-final token, both
/// non-empty, exactly one of each is reported (the `Final` first) when the
/// partial text is new, and the same response again reports no second
/// `Partial`.
pub proof fn lemma_one_final_one_partial(prev: Seq<char>, resp: SonioxResponse)
    requires
        resp.error_code is None,
        resp.tokens@.len() == 2,
        resp.tokens@[0].is_final,
        !resp.tokens@[1].is_final,
        resp.tokens@[0].text@.len() > 0,
        resp.tokens@[1].text@.len() > 0,
        resp.tokens@[1].text@ != prev,
    ensures
        decode_response(prev, resp).0 == seq![
            ResultView::Final(resp.tokens@[0].text@),
            ResultView::Partial(resp.tokens@[1].text@),
        ],
        decode_response(decode_response(prev, resp).1, resp).0 == seq![
            ResultView::Final(resp.tokens@[0].text@),
        ],
{
    let t = resp.tokens@;
    assert(t.drop_last().drop_last() =~= Seq::<SonioxToken>::empty());
    assert(t.drop_last().last() == t[0]);
    let t1 = t.drop_last();
    assert(t1.drop_last() =~= Seq::<SonioxToken>::empty());
    assert(joined_text(t1.drop_last(), true) =~= Seq::<char>::empty());
    assert(joined_text(t1.drop_last(), false) =~= Seq::<char>::empty());
    assert(joined_text(t1, true) =~= Seq::<char>::empty() + t[0].text@);
    assert(joined_text(t1, false) =~= Seq::<char>::empty());
    assert(t.last() == t[1]);
    assert(joined_text(t, true) =~= t[0].text@);
    assert(joined_text(t, false) =~= t[1].text@);
    assert(decode_response(prev, resp).0 =~= seq![
        ResultView::Final(t[0].text@),
        ResultView::Partial(t[1].text@),
    ]);
    assert(decode_response(decode_response(prev, resp).1, resp).0 =~= seq![
        ResultView::Final(t[0].text@),
    ]);
}

/// A response that repeats the partial text last seen reports no `Partial`.
pub proof fn lemma_repeated_partial_suppressed(prev: Seq<char>, resp: SonioxResponse)
    requires
        joined_text(resp.tokens@, false) == prev,
    ensures
        forall|i: int| 0 <= i < decode_response(prev, resp).0.len()
            ==> !(#[trigger] decode_response(prev, resp).0[i] is Partial),
{
}

} // verus!
