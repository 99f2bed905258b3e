//! Session state machine of the dictation pipeline.
//!
//! The manager decides; its caller acts. `start` says which backend to open,
//! each captured chunk goes to `on_audio_chunk` (offline backends) or
//! `realtime_audio` (streaming backend), recognition outcomes come back
//! through `on_recognized` and `on_realtime_response`, and every event for
//! the consumer is queued in order and handed out by `take_events`.

use vstd::prelude::*;
use crate::command_processor::{
    default_tables, detected_actions, display_text, lower_of, strings_view, CommandProcessor,
    CommandTables,
};
use crate::config::{AppConfig, ConfigView, ModelSize, SpeechEngine};
use crate::soniox::{
    decode_response, ClientView, ResultView, SonioxClient, SonioxHandshake, SonioxResponse,
    SonioxResult, session_handshake, le_bytes,
};
use crate::vad::{level_of, vad_step, VadView, VoiceActivityDetector};

verus! {

/// Recognition state of a manager.
#[derive(Debug, Clone, Copy, PartialEq, Eq, Structural)]
pub enum RecognitionState {
    Idle,
    Listening,
    Processing,
    Error,
}

/// An event for the consumer of the pipeline.
#[derive(Debug, Clone, PartialEq)]
pub enum SpeechResult {
    /// Interim text that may still change.
    Partial(String),
    /// Text to type.
    Final(String),
    /// Action name, such as `undo` or `select_all`.
    Action(String),
    StateChange(RecognitionState),
    /// Audio level of a chunk, 0..=100.
    AudioLevel(u8),
    Error(String),
}

/// The meaning of a `SpeechResult`, with text as characters.
pub enum EventView {
    Partial(Seq<char>),
    Final(Seq<char>),
    Action(Seq<char>),
    StateChange(RecognitionState),
    AudioLevel(u8),
    Error(Seq<char>),
}

impl View for SpeechResult {
    type V = EventView;

    open spec fn view(&self) -> EventView {
        match self {
            SpeechResult::Partial(t) => EventView::Partial(t@),
            SpeechResult::Final(t) => EventView::Final(t@),
            SpeechResult::Action(t) => EventView::Action(t@),
            SpeechResult::StateChange(s) => EventView::StateChange(*s),
            SpeechResult::AudioLevel(l) => EventView::AudioLevel(*l),
            SpeechResult::Error(t) => EventView::Error(t@),
        }
    }
}

pub open spec fn events_view(v: Seq<SpeechResult>) -> Seq<EventView> {
    v.map_values(|e: SpeechResult| e@)
}

/// Why a session could not start.
#[derive(Debug, Clone, Copy, PartialEq, Eq, Structural)]
pub enum SpeechError {
    /// No matching or available audio device.
    DeviceError,
    /// The audio stream could not be opened or played.
    StreamError,
    /// A needed setting, such as the streaming credential, is missing.
    ConfigurationError,
    /// The offline model files are missing.
    ModelUnavailable,
}

/// What the caller opens for a session that `start` began.
#[derive(Debug)]
pub enum SessionPlan {
    /// A session was already running; nothing to open.
    AlreadyRunning,
    /// Connect the streaming client and send this handshake first, then
    /// start audio capture on the device (`None`: the default device).
    Realtime { handshake: SonioxHandshake, device_name: Option<String> },
    /// Load the offline engine, then start audio capture.
    Offline {
        engine: SpeechEngine,
        language: String,
        model_size: ModelSize,
        device_name: Option<String>,
    },
}

/// Everything the manager holds, as mathematical values.
pub struct ManagerView {
    pub config: ConfigView,
    pub tables: CommandTables,
    pub state: RecognitionState,
    pub running: bool,
    /// Events queued for the consumer, oldest first.
    pub events: Seq<EventView>,
    /// Detector of an offline session.
    pub vad: Option<VadView>,
    /// Audio of the current utterance of an offline session.
    pub buffer: Seq<i16>,
    /// Client of a streaming session.
    pub client: Option<ClientView>,
}

/// The events for one recognized utterance: the text to type when it is
/// not empty, then one `Action` per action detected.
pub open spec fn recognized_events(t: CommandTables, text: Seq<char>) -> Seq<EventView> {
    let shown = display_text(t, text);
    let head = if shown.len() > 0 { seq![EventView::Final(shown)] } else { Seq::empty() };
    head + detected_actions(lower_of(text), t.actions).map_values(|a: Seq<char>| EventView::Action(a))
}

/// The events for the results of the streaming client: partial text and
/// errors as they are, final text through command processing.
pub open spec fn realtime_events(t: CommandTables, results: Seq<ResultView>) -> Seq<EventView>
    decreases results.len(),
{
    if results.len() == 0 {
        Seq::empty()
    } else {
        let pre = realtime_events(t, results.drop_last());
        match results.last() {
            ResultView::Partial(p) => pre.push(EventView::Partial(p)),
            ResultView::Final(f) => pre + recognized_events(t, f),
            ResultView::Error(m) => pre.push(EventView::Error(m)),
            ResultView::Closed => pre,
        }
    }
}

/// What `start` does. A running session is left as it is. A streaming
/// configuration without a credential is refused and changes nothing.
/// Otherwise the session runs, in `Listening`, with that state change
/// queued, and the backend's state fresh.
pub open spec fn start_transition(old: ManagerView, new: ManagerView, already: bool, ok: bool) -> bool {
    if old.running {
        already && ok && new == old
    } else if old.config.engine == SpeechEngine::Soniox && old.config.api_key is None {
        !already && !ok && new == old
    } else {
        &&& !already && ok
        &&& new.running
        &&& new.state == RecognitionState::Listening
        &&& new.events == old.events.push(EventView::StateChange(RecognitionState::Listening))
        &&& new.config == old.config
        &&& new.tables == old.tables
        &&& new.buffer == Seq::<i16>::empty()
        &&& if old.config.engine == SpeechEngine::Soniox {
            &&& new.vad is None
            &&& new.client matches Some(c) && c.connected && c.partial == Seq::<char>::empty()
                && c.api_key == old.config.api_key->Some_0 && c.language == old.config.language
                && c.enable_speaker_diarization == old.config.enable_speaker_diarization
                && c.enable_language_identification == old.config.enable_language_identification
        } else {
            &&& new.client is None
            &&& new.vad matches Some(v) && v.wf() && !v.speech_detected && v.silence_samples == 0
                && v.sensitivity == crate::vad::clamp_sensitivity(old.config.vad_sensitivity as int)
                && v.silence_timeout_ms == old.config.silence_timeout_ms
        }
    }
}

/// What `stop` does: nothing when no session runs; otherwise the session
/// ends in `Idle`, with that state change queued and the backend dropped.
pub open spec fn stop_transition(old: ManagerView, new: ManagerView) -> bool {
    if !old.running {
        new == old
    } else {
        new == ManagerView {
            state: RecognitionState::Idle,
            running: false,
            events: old.events.push(EventView::StateChange(RecognitionState::Idle)),
            vad: None,
            buffer: Seq::empty(),
            client: None,
            ..old
        }
    }
}

/// Top-level state machine over one dictation session at a time.
pub struct SpeechManager {
    config: AppConfig,
    command_processor: CommandProcessor,
    state: RecognitionState,
    is_running: bool,
    events: Vec<SpeechResult>,
    vad: Option<VoiceActivityDetector>,
    buffer: Vec<i16>,
    client: Option<SonioxClient>,
}

pub open spec fn vad_opt_view(v: Option<VoiceActivityDetector>) -> Option<VadView> {
    match v {
        Some(d) => Some(d@),
        None => None,
    }
}

pub open spec fn client_opt_view(c: Option<SonioxClient>) -> Option<ClientView> {
    match c {
        Some(s) => Some(s@),
        None => None,
    }
}

impl View for SpeechManager {
    type V = ManagerView;

    closed spec fn view(&self) -> ManagerView {
        ManagerView {
            config: self.config@,
            tables: self.command_processor@,
            state: self.state,
            running: self.is_running,
            events: events_view(self.events@),
            vad: vad_opt_view(self.vad),
            buffer: self.buffer@,
            client: client_opt_view(self.client),
        }
    }
}

impl SpeechManager {
    /// An idle manager with the given configuration.
    pub fn new(config: AppConfig) -> (r: Self)
        ensures
            r@.config == config@,
            r@.tables == default_tables(),
            r@.state == RecognitionState::Idle,
            !r@.running,
            r@.events == Seq::<EventView>::empty(),
            r@.vad is None,
            r@.buffer == Seq::<i16>::empty(),
            r@.client is None,
    {
        let r = SpeechManager {
            config,
            command_processor: CommandProcessor::new(),
            state: RecognitionState::Idle,
            is_running: false,
            events: Vec::new(),
            vad: None,
            buffer: Vec::new(),
            client: None,
        };
        proof {
            assert(events_view(r.events@) =~= Seq::<EventView>::empty());
        }
        r
    }

    fn emit(&mut self, e: SpeechResult)
        ensures
            final(self)@ == (ManagerView { events: old(self)@.events.push(e@), ..old(self)@ }),
    {
        let ghost before = self.events@;
        self.events.push(e);
        proof {
            assert(events_view(self.events@) =~= events_view(before).push(e@));
        }
    }

    /// Queues the events for one recognized utterance.
    fn emit_recognized(&mut self, text: &str)
        ensures
            final(self)@ == (ManagerView {
                events: old(self)@.events + recognized_events(old(self)@.tables, text@),
                ..old(self)@
            }),
    {
        let (shown, actions) = self.command_processor.process(text);
        let ghost start = self@;
        let ghost acts = detected_actions(lower_of(text@), start.tables.actions);
        let ghost head = if shown@.len() > 0 {
            seq![EventView::Final(shown@)]
        } else {
            Seq::empty()
        };
        if !shown.as_str().is_empty() {
            self.emit(SpeechResult::Final(shown));
        }
        proof {
            assert(self@.events =~= start.events + head);
        }
        let mut i: usize = 0;
        while i < actions.len()
            invariant
                i <= actions@.len(),
                strings_view(actions@) == acts,
                self@ == (ManagerView {
                    events: start.events + head + acts.subrange(0, i as int).map_values(
                        |a: Seq<char>| EventView::Action(a),
                    ),
                    ..start
                }),
            decreases actions@.len() - i,
        {
            let name = actions[i].clone();
            self.emit(SpeechResult::Action(name));
            proof {
                assert(acts[i as int] == actions@[i as int]@);
                assert(acts.subrange(0, i as int + 1).map_values(|a: Seq<char>| EventView::Action(a))
                    =~= acts.subrange(0, i as int).map_values(|a: Seq<char>| EventView::Action(a)).push(
                    EventView::Action(acts[i as int]),
                ));
            }
            i = i + 1;
        }
        proof {
            assert(acts.subrange(0, acts.len() as int) =~= acts);
            assert(self@.events =~= start.events + recognized_events(start.tables, text@));
        }
    }

    /// Current recognition state.
    pub fn state(&self) -> (r: RecognitionState)
        ensures
            r == self@.state,
    {
        self.state
    }

    /// Whether a session runs.
    pub fn is_running(&self) -> (r: bool)
        ensures
            r == self@.running,
    {
        self.is_running
    }

    /// Replaces the configuration used by the next `start`; a running
    /// session is unaffected.
    pub fn update_config(&mut self, config: AppConfig)
        ensures
            final(self)@ == (ManagerView { config: config@, ..old(self)@ }),
    {
        self.config = config;
    }

    /// A copy of the configuration.
    pub fn config(&self) -> (r: AppConfig)
        ensures
            r@ == self@.config,
    {
        self.config.snapshot()
    }

    /// Hands out the queued events, oldest first, and empties the queue.
    pub fn take_events(&mut self) -> (r: Vec<SpeechResult>)
        ensures
            events_view(r@) == old(self)@.events,
            final(self)@ == (ManagerView { events: Seq::empty(), ..old(self)@ }),
    {
        let mut out: Vec<SpeechResult> = Vec::new();
        std::mem::swap(&mut out, &mut self.events);
        proof {
            assert(events_view(self.events@) =~= Seq::<EventView>::empty());
        }
        out
    }

    /// Starts a session, as `start_transition` states, and says what the
    /// caller must open for it.
    pub fn start(&mut self) -> (r: Result<SessionPlan, SpeechError>)
        ensures
            start_transition(old(self)@, final(self)@, r matches Ok(SessionPlan::AlreadyRunning), r is Ok),
            r is Err ==> r == Err::<SessionPlan, SpeechError>(SpeechError::ConfigurationError),
            r matches Ok(SessionPlan::Realtime { handshake, device_name }) ==> old(self)@.config.engine
                == SpeechEngine::Soniox && session_handshake(final(self)@.client->Some_0, handshake)
                && crate::config::opt_view(device_name) == old(self)@.config.device_name,
            r matches Ok(SessionPlan::Offline { engine, language, model_size, device_name }) ==> engine
                == old(self)@.config.engine && engine != SpeechEngine::Soniox && language@
                == old(self)@.config.language && model_size == old(self)@.config.model_size
                && crate::config::opt_view(device_name) == old(self)@.config.device_name,
    {
        if self.is_running {
            return Ok(SessionPlan::AlreadyRunning);
        }
        let engine = self.config.speech.engine;
        let device_name = match &self.config.audio.device_name {
            Some(d) => Some(d.clone()),
            None => None,
        };
        match engine {
            SpeechEngine::Soniox => {
                let key = match &self.config.soniox.api_key {
                    Some(k) => k.clone(),
                    None => {
                        return Err(SpeechError::ConfigurationError);
                    },
                };
                let mut client = SonioxClient::new(
                    key,
                    self.config.speech.language.clone(),
                    self.config.soniox.enable_speaker_diarization,
                    self.config.soniox.enable_language_identification,
                );
                let handshake = match client.connect() {
                    Ok(h) => h,
                    Err(_) => {
                        return Err(SpeechError::ConfigurationError);
                    },
                };
                self.client = Some(client);
                self.vad = None;
                self.buffer = Vec::new();
                self.is_running = true;
                self.state = RecognitionState::Listening;
                self.emit(SpeechResult::StateChange(RecognitionState::Listening));
                Ok(SessionPlan::Realtime { handshake, device_name })
            },
            _ => {
                self.vad = Some(
                    VoiceActivityDetector::new(
                        self.config.speech.vad_sensitivity,
                        self.config.speech.silence_timeout_ms,
                    ),
                );
                self.client = None;
                self.buffer = Vec::new();
                self.is_running = true;
                self.state = RecognitionState::Listening;
                self.emit(SpeechResult::StateChange(RecognitionState::Listening));
                Ok(
                    SessionPlan::Offline {
                        engine,
                        language: self.config.speech.language.clone(),
                        model_size: self.config.speech.model_size,
                        device_name,
                    },
                )
            },
        }
    }

    /// Stops the session, as `stop_transition` states. The caller stops
    /// audio capture and closes the streaming connection.
    pub fn stop(&mut self)
        ensures
            stop_transition(old(self)@, final(self)@),
    {
        if !self.is_running {
            return;
        }
        if let Some(client) = &mut self.client {
            client.disconnect();
        }
        self.client = None;
        self.vad = None;
        self.buffer = Vec::new();
        self.is_running = false;
        self.state = RecognitionState::Idle;
        self.emit(SpeechResult::StateChange(RecognitionState::Idle));
    }

    /// One captured chunk of an offline session. Queues the chunk's level,
    /// runs the detector, and appends the chunk to the utterance unless it
    /// ends it. When the silence timeout ends an utterance that holds audio,
    /// the state turns to `Processing` (queued) and the utterance is returned
    /// for recognition, the buffer emptied. Without an offline session
    /// nothing changes.
    pub fn on_audio_chunk(&mut self, samples: &[i16]) -> (r: Option<Vec<i16>>)
        ensures
            !(old(self)@.running && old(self)@.vad is Some) ==> r is None && final(self)@ == old(self)@,
            old(self)@.running && old(self)@.vad is Some ==> {
                let v = old(self)@.vad->Some_0;
                let (w, outcome) = vad_step(v, samples@);
                let heard = old(self)@.events.push(EventView::AudioLevel(level_of(samples@) as u8));
                if outcome == Some(true) && old(self)@.buffer.len() > 0 {
                    &&& r matches Some(b) && b@ == old(self)@.buffer
                    &&& final(self)@ == ManagerView {
                        vad: Some(w),
                        buffer: Seq::empty(),
                        state: RecognitionState::Processing,
                        events: heard.push(EventView::StateChange(RecognitionState::Processing)),
                        ..old(self)@
                    }
                } else if outcome == Some(true) {
                    &&& r is None
                    &&& final(self)@ == ManagerView { vad: Some(w), events: heard, ..old(self)@ }
                } else {
                    &&& r is None
                    &&& final(self)@ == ManagerView {
                        vad: Some(w),
                        events: heard,
                        buffer: old(self)@.buffer + samples@,
                        ..old(self)@
                    }
                }
            },
    {
        if !self.is_running {
            return None;
        }
        let mut vad = match self.vad.take() {
            Some(v) => v,
            None => {
                return None;
            },
        };
        let level = crate::vad::chunk_level(samples);
        self.emit(SpeechResult::AudioLevel(level));
        let outcome = vad.process(samples);
        self.vad = Some(vad);
        match outcome {
            Some(true) => {
                if self.buffer.len() > 0 {
                    let mut utterance: Vec<i16> = Vec::new();
                    std::mem::swap(&mut utterance, &mut self.buffer);
                    self.state = RecognitionState::Processing;
                    self.emit(SpeechResult::StateChange(RecognitionState::Processing));
                    Some(utterance)
                } else {
                    None
                }
            },
            _ => {
                let ghost before = self.buffer@;
                let ghost fixed = self@;
                let mut i: usize = 0;
                while i < samples.len()
                    invariant
                        i <= samples@.len(),
                        self.buffer@ == before + samples@.subrange(0, i as int),
                        self@ == (ManagerView { buffer: self.buffer@, ..fixed }),
                    decreases samples@.len() - i,
                {
                    self.buffer.push(samples[i]);
                    i = i + 1;
                    proof {
                        assert(self.buffer@ =~= before + samples@.subrange(0, i as int));
                    }
                }
                proof {
                    assert(samples@.subrange(0, samples@.len() as int) =~= samples@);
                }
                None
            },
        }
    }

    /// The outcome of recognizing an utterance returned by `on_audio_chunk`.
    /// Non-empty text is queued through command processing; empty text and
    /// engine failures queue nothing. The state then returns to `Listening`
    /// (queued). Outside `Processing` in a running session nothing changes.
    pub fn on_recognized(&mut self, outcome: Result<String, String>)
        ensures
            !(old(self)@.running && old(self)@.state == RecognitionState::Processing) ==> final(self)@
                == old(self)@,
            old(self)@.running && old(self)@.state == RecognitionState::Processing ==> {
                let produced = match outcome {
                    Ok(t) => if t@.len() > 0 {
                        recognized_events(old(self)@.tables, t@)
                    } else {
                        Seq::empty()
                    },
                    Err(_) => Seq::empty(),
                };
                final(self)@ == ManagerView {
                    state: RecognitionState::Listening,
                    events: (old(self)@.events + produced).push(
                        EventView::StateChange(RecognitionState::Listening),
                    ),
                    ..old(self)@
                }
            },
    {
        if !(self.is_running && self.state == RecognitionState::Processing) {
            return;
        }
        let ghost start = self@;
        match &outcome {
            Ok(text) => {
                if !text.as_str().is_empty() {
                    self.emit_recognized(text.as_str());
                } else {
                    proof {
                        assert(self@.events =~= start.events + Seq::<EventView>::empty());
                    }
                }
            },
            Err(_) => {
                proof {
                    assert(self@.events =~= start.events + Seq::<EventView>::empty());
                }
            },
        }
        self.state = RecognitionState::Listening;
        self.emit(SpeechResult::StateChange(RecognitionState::Listening));
    }

    /// The frame to send for a captured chunk of a streaming session: the
    /// samples' little-endian bytes, or `None` without a streaming session.
    pub fn realtime_audio(&self, samples: &[i16]) -> (r: Option<Vec<u8>>)
        ensures
            r is Some <==> (self@.running && self@.client is Some && self@.client->Some_0.connected),
            r matches Some(b) ==> b@ == le_bytes(samples@),
    {
        if !self.is_running {
            return None;
        }
        match &self.client {
            Some(c) => match c.send_audio(samples) {
                Ok(b) => Some(b),
                Err(_) => None,
            },
            None => None,
        }
    }

    /// One decoded response of the streaming connection: decoded as
    /// `decode_response` states, its results queued as `realtime_events`
    /// states. Returns whether the connection goes on. A response that ends
    /// it (a server error) ends the session too: not running, in the `Error`
    /// state (queued), the client dropped. Without a streaming session
    /// nothing changes and `false` is returned.
    pub fn on_realtime_response(&mut self, resp: &SonioxResponse) -> (r: bool)
        ensures
            !(old(self)@.running && old(self)@.client is Some) ==> !r && final(self)@ == old(self)@,
            old(self)@.running && old(self)@.client is Some ==> {
                let c = old(self)@.client->Some_0;
                let (results, partial, go_on) = decode_response(c.partial, *resp);
                let queued = old(self)@.events + realtime_events(old(self)@.tables, results);
                &&& r == go_on
                &&& go_on ==> final(self)@ == ManagerView {
                    events: queued,
                    client: Some(ClientView { partial, ..c }),
                    ..old(self)@
                }
                &&& !go_on ==> final(self)@ == ManagerView {
                    events: queued.push(EventView::StateChange(RecognitionState::Error)),
                    state: RecognitionState::Error,
                    running: false,
                    client: None,
                    vad: None,
                    buffer: Seq::empty(),
                    ..old(self)@
                }
            },
    {
        if !self.is_running {
            return false;
        }
        let mut client = match self.client.take() {
            Some(c) => c,
            None => {
                return false;
            },
        };
        let (results, go_on) = client.handle_response(resp);
        self.client = Some(client);
        let ghost start = self@;
        let ghost rv = crate::soniox::results_view(results@);
        let mut i: usize = 0;
        while i < results.len()
            invariant
                i <= results@.len(),
                rv == crate::soniox::results_view(results@),
                self@ == (ManagerView {
                    events: start.events + realtime_events(start.tables, rv.subrange(0, i as int)),
                    ..start
                }),
            decreases results@.len() - i,
        {
            proof {
                let pre = rv.subrange(0, i as int + 1);
                assert(pre.drop_last() =~= rv.subrange(0, i as int));
                assert(pre.last() == results@[i as int]@);
            }
            match &results[i] {
                SonioxResult::Partial(p) => {
                    self.emit(SpeechResult::Partial(p.clone()));
                    proof {
                        assert(self@.events =~= start.events + realtime_events(
                            start.tables,
                            rv.subrange(0, i as int + 1),
                        ));
                    }
                },
                SonioxResult::Final(f) => {
                    self.emit_recognized(f.as_str());
                    proof {
                        assert(self@.events =~= start.events + realtime_events(
                            start.tables,
                            rv.subrange(0, i as int + 1),
                        ));
                    }
                },
                SonioxResult::Error(m) => {
                    self.emit(SpeechResult::Error(m.clone()));
                    proof {
                        assert(self@.events =~= start.events + realtime_events(
                            start.tables,
                            rv.subrange(0, i as int + 1),
                        ));
                    }
                },
                SonioxResult::Closed => {
                    proof {
                        assert(self@.events =~= start.events + realtime_events(
                            start.tables,
                            rv.subrange(0, i as int + 1),
                        ));
                    }
                },
            }
            i = i + 1;
        }
        proof {
            assert(rv.subrange(0, rv.len() as int) =~= rv);
        }
        if !go_on {
            self.client = None;
            self.vad = None;
            self.buffer = Vec::new();
            self.is_running = false;
            self.state = RecognitionState::Error;
            self.emit(SpeechResult::StateChange(RecognitionState::Error));
        }
        go_on
    }
}

/// Starting twice in a row is idempotent: once a start has succeeded, a
/// second start reports the running session and changes nothing, and one
/// session stays active.
pub proof fn lemma_start_twice_idempotent(
    m0: ManagerView,
    m1: ManagerView,
    m2: ManagerView,
    already1: bool,
    already2: bool,
    ok2: bool,
)
    requires
        start_transition(m0, m1, already1, true),
        start_transition(m1, m2, already2, ok2),
    ensures
        m1.running,
        already2 && ok2,
        m2 == m1,
{
}

/// Stopping a manager on which no session runs changes nothing.
pub proof fn lemma_stop_when_idle_is_noop(m0: ManagerView, m1: ManagerView)
    requires
        !m0.running,
        stop_transition(m0, m1),
    ensures
        m1 == m0,
{
}

} // verus!
