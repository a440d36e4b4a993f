//! The chat window's state and how each event changes it.
//!
//! The window talks to the desktop process through commands (see
//! [`crate::invoke`]); every method here takes the outcome of one such step
//! and says what the window shows next and, where one follows, which step
//! comes next. Running the commands, recording audio and playing it are
//! left to the caller.
use vstd::prelude::*;
use crate::text::{trim, str_trim, is_blank, concat};

verus! {

/// The most messages the window keeps after a trim is due.
pub const MAX_MESSAGES: usize = 200;

/// How many of the latest messages a trim keeps.
pub const TRIM_TO: usize = 150;

/// Who a message is from.
#[derive(Clone, Copy, Debug, PartialEq, Eq)]
pub enum MsgRole {
    User,
    Assistant,
    System,
}

/// One message of the conversation.
#[derive(Clone, Debug, PartialEq)]
pub struct Message {
    pub role: MsgRole,
    pub text: String,
}

/// How the user talks to the assistant.
#[derive(Clone, Copy, Debug, PartialEq, Eq)]
pub enum Mode {
    Text,
    Voice,
}

/// A message by its role and characters.
pub open spec fn message_view(m: Message) -> (MsgRole, Seq<char>) {
    (m.role, m.text@)
}

/// Messages by role and characters.
pub open spec fn messages_view(s: Seq<Message>) -> Seq<(MsgRole, Seq<char>)> {
    s.map_values(|m: Message| message_view(m))
}

/// What a trim leaves of `s`: all of it while it holds at most
/// [`MAX_MESSAGES`], else its last [`TRIM_TO`].
pub open spec fn kept<A>(s: Seq<A>) -> Seq<A> {
    if s.len() > MAX_MESSAGES {
        s.subrange(s.len() - TRIM_TO, s.len() as int)
    } else {
        s
    }
}

/// Drops the oldest messages once there are more than [`MAX_MESSAGES`],
/// keeping the latest [`TRIM_TO`].
pub fn trim_messages(msgs: &mut Vec<Message>)
    ensures
        final(msgs)@ == kept(old(msgs)@),
{
    if msgs.len() > MAX_MESSAGES {
        let excess = msgs.len() - TRIM_TO;
        let latest = msgs.split_off(excess);
        *msgs = latest;
    }
}

proof fn lemma_kept_view(s: Seq<Message>)
    ensures
        messages_view(kept(s)) == kept(messages_view(s)),
{
    assert(messages_view(kept(s)) =~= kept(messages_view(s)));
}

/// The reply to a text message: the assistant's answer, and the audio file
/// that speaks it (empty when there is none).
pub struct TextReply {
    pub reply: Option<String>,
    pub audio_file: Option<String>,
}

/// The reply to a voice message: what was heard, the assistant's answer,
/// and the audio file that speaks it.
pub struct VoiceReply {
    pub transcription: Option<String>,
    pub reply: Option<String>,
    pub audio_file: Option<String>,
}

/// What the microphone button asks for.
pub enum RecordingAction {
    /// Start a recording.
    Start,
    /// Stop the recording whose handle the state holds, and send it; the
    /// handle stays held until the exchange finishes.
    Stop,
    /// Nothing to do.
    Idle,
}

/// A finished recording: its base64 audio and MIME type.
pub struct RecordedAudio {
    pub audio_b64: String,
    pub mime_type: String,
}

/// The state of the chat window; `H` is the handle of a running recording.
pub struct ChatState<H> {
    pub messages: Vec<Message>,
    pub input_text: String,
    pub is_loading: bool,
    pub session_active: bool,
    pub mode: Mode,
    pub mic_available: bool,
    pub ffmpeg_available: bool,
    pub show_warning: bool,
    pub is_recording: bool,
    pub recording: Option<H>,
}

/// The audio file that follows a reply, if its name is not empty.
pub open spec fn audio_to_fetch(reply: Option<String>, audio_file: Option<String>) -> Option<
    Seq<char>,
> {
    match reply {
        Some(_) => match audio_file {
            Some(a) => if a@.len() > 0 {
                Some(a@)
            } else {
                None
            },
            None => None,
        },
        None => None,
    }
}

/// `b` has the session flags of `a`: whether a session runs, whether the
/// microphone and ffmpeg are available, whether the warning shows.
pub open spec fn keeps_session<H>(a: ChatState<H>, b: ChatState<H>) -> bool {
    &&& b.session_active == a.session_active
    &&& b.mic_available == a.mic_available
    &&& b.ffmpeg_available == a.ffmpeg_available
    &&& b.show_warning == a.show_warning
}

/// `b` has the recorder state of `a`.
pub open spec fn keeps_recorder<H>(a: ChatState<H>, b: ChatState<H>) -> bool {
    b.is_recording == a.is_recording && b.recording == a.recording
}

impl<H> ChatState<H> {
    /// The conversation, by role and characters.
    pub open spec fn history(&self) -> Seq<(MsgRole, Seq<char>)> {
        messages_view(self.messages@)
    }

    /// Whether a submit of `text` is taken: there is something besides
    /// whitespace, no exchange is under way, and the session runs.
    pub open spec fn accepts_submit(&self, text: Seq<char>) -> bool {
        trim(text).len() > 0 && !self.is_loading && self.session_active
    }

    /// Voice mode is on only while the microphone works.
    pub open spec fn voice_needs_mic(&self) -> bool {
        self.mode == Mode::Voice ==> self.mic_available
    }

    /// Whether voice mode may be entered.
    pub open spec fn voice_available(&self) -> bool {
        self.mic_available && self.ffmpeg_available
    }

    /// The window as it opens: no messages, text mode, no session yet, the
    /// microphone not yet known to work.
    pub fn new() -> (r: Self)
        ensures
            r.history() == Seq::<(MsgRole, Seq<char>)>::empty(),
            r.input_text@ == Seq::<char>::empty(),
            !r.is_loading,
            !r.session_active,
            r.mode == Mode::Text,
            !r.mic_available,
            r.ffmpeg_available,
            !r.show_warning,
            !r.is_recording,
            r.recording is None,
            r.voice_needs_mic(),
    {
        let r = ChatState {
            messages: Vec::new(),
            input_text: String::new(),
            is_loading: false,
            session_active: false,
            mode: Mode::Text,
            mic_available: false,
            ffmpeg_available: true,
            show_warning: false,
            is_recording: false,
            recording: None,
        };
        assert(r.history() =~= Seq::<(MsgRole, Seq<char>)>::empty());
        r
    }

    fn push(&mut self, role: MsgRole, text: String, trim_after: bool)
        ensures
            final(self).history() == if trim_after {
                kept(old(self).history().push((role, text@)))
            } else {
                old(self).history().push((role, text@))
            },
            final(self).input_text == old(self).input_text,
            final(self).is_loading == old(self).is_loading,
            final(self).session_active == old(self).session_active,
            final(self).mode == old(self).mode,
            final(self).mic_available == old(self).mic_available,
            final(self).ffmpeg_available == old(self).ffmpeg_available,
            final(self).show_warning == old(self).show_warning,
            final(self).is_recording == old(self).is_recording,
            final(self).recording == old(self).recording,
    {
        let ghost before = self.messages@;
        self.messages.push(Message { role, text });
        assert(messages_view(self.messages@) =~= messages_view(before).push((role, text@)));
        if trim_after {
            proof {
                lemma_kept_view(self.messages@);
            }
            trim_messages(&mut self.messages);
        }
    }

    /// The microphone was tried: when it works voice mode becomes possible
    /// and the warning goes; when not, the warning shows and the window
    /// falls back to text mode.
    pub fn mic_probed(&mut self, works: bool)
        ensures
            old(self).voice_needs_mic() ==> final(self).voice_needs_mic(),
            final(self).mic_available == works,
            final(self).show_warning == !works,
            final(self).mode == if works { old(self).mode } else { Mode::Text },
            final(self).history() == old(self).history(),
            final(self).input_text == old(self).input_text,
            final(self).is_loading == old(self).is_loading,
            final(self).session_active == old(self).session_active,
            final(self).ffmpeg_available == old(self).ffmpeg_available,
            keeps_recorder(*old(self), *final(self)),
    {
        if works {
            self.mic_available = true;
            self.show_warning = false;
        } else {
            self.mic_available = false;
            self.show_warning = true;
            self.mode = Mode::Text;
        }
    }

    /// The session is being started.
    pub fn session_starting(&mut self)
        ensures
            old(self).voice_needs_mic() ==> final(self).voice_needs_mic(),
            final(self).is_loading,
            final(self).history() == old(self).history(),
            final(self).input_text == old(self).input_text,
            final(self).mode == old(self).mode,
            keeps_session(*old(self), *final(self)),
            keeps_recorder(*old(self), *final(self)),
    {
        self.is_loading = true;
    }

    /// The session start answered: `Ok` with its `ffmpeg_available` flag (if
    /// it had a boolean one), or `Err`. Returns whether the greeting is to
    /// be fetched next.
    pub fn session_started(&mut self, outcome: Result<Option<bool>, String>) -> (r: bool)
        ensures
            old(self).voice_needs_mic() ==> final(self).voice_needs_mic(),
            r == outcome is Ok,
            match outcome {
                Ok(flag) => {
                    let ffmpeg = match flag {
                        Some(b) => b,
                        None => false,
                    };
                    &&& final(self).ffmpeg_available == ffmpeg
                    &&& final(self).session_active
                    &&& final(self).show_warning == (old(self).show_warning || !ffmpeg
                        || !old(self).mic_available)
                    &&& final(self).history() == old(self).history()
                    &&& final(self).is_loading == old(self).is_loading
                },
                Err(e) => {
                    &&& final(self).history() == old(self).history().push(
                        (MsgRole::System, "Failed to start session: "@ + e@),
                    )
                    &&& !final(self).is_loading
                    &&& keeps_session(*old(self), *final(self))
                },
            },
            final(self).input_text == old(self).input_text,
            final(self).mode == old(self).mode,
            final(self).mic_available == old(self).mic_available,
            keeps_recorder(*old(self), *final(self)),
    {
        match outcome {
            Ok(flag) => {
                let ffmpeg = match flag {
                    Some(b) => b,
                    None => false,
                };
                self.ffmpeg_available = ffmpeg;
                if !ffmpeg || !self.mic_available {
                    self.show_warning = true;
                }
                self.session_active = true;
                true
            },
            Err(e) => {
                let text = concat("Failed to start session: ", e.as_str());
                self.push(MsgRole::System, text, false);
                self.is_loading = false;
                false
            },
        }
    }

    /// The greeting answered: `Ok` with the greeting text (if it had one),
    /// or `Err`. The exchange is over.
    pub fn greeting_received(&mut self, outcome: Result<Option<String>, String>)
        ensures
            old(self).voice_needs_mic() ==> final(self).voice_needs_mic(),
            final(self).history() == match outcome {
                Ok(Some(g)) => kept(old(self).history().push((MsgRole::Assistant, g@))),
                Ok(None) => old(self).history(),
                Err(e) => old(self).history().push((MsgRole::System, "Greeting failed: "@ + e@)),
            },
            !final(self).is_loading,
            final(self).input_text == old(self).input_text,
            final(self).mode == old(self).mode,
            keeps_session(*old(self), *final(self)),
            keeps_recorder(*old(self), *final(self)),
    {
        match outcome {
            Ok(Some(g)) => self.push(MsgRole::Assistant, g, true),
            Ok(None) => {},
            Err(e) => {
                let text = concat("Greeting failed: ", e.as_str());
                self.push(MsgRole::System, text, false);
            },
        }
        self.is_loading = false;
    }

    /// The user edited the input line.
    pub fn input_changed(&mut self, text: String)
        ensures
            old(self).voice_needs_mic() ==> final(self).voice_needs_mic(),
            final(self).input_text == text,
            final(self).history() == old(self).history(),
            final(self).is_loading == old(self).is_loading,
            final(self).mode == old(self).mode,
            keeps_session(*old(self), *final(self)),
            keeps_recorder(*old(self), *final(self)),
    {
        self.input_text = text;
    }

    /// The user sent `text`. When it is taken (see
    /// [`ChatState::accepts_submit`]) the input line empties, the window
    /// becomes busy, the trimmed text joins the conversation and is
    /// returned, to be sent; otherwise nothing changes.
    pub fn submit(&mut self, text: &str) -> (r: Option<String>)
        ensures
            old(self).voice_needs_mic() ==> final(self).voice_needs_mic(),
            match r {
                Some(t) => {
                    &&& old(self).accepts_submit(text@)
                    &&& t@ == trim(text@)
                    &&& final(self).history() == kept(
                        old(self).history().push((MsgRole::User, trim(text@))),
                    )
                    &&& final(self).input_text@ == Seq::<char>::empty()
                    &&& final(self).is_loading
                },
                None => {
                    &&& !old(self).accepts_submit(text@)
                    &&& final(self).history() == old(self).history()
                    &&& final(self).input_text == old(self).input_text
                    &&& final(self).is_loading == old(self).is_loading
                },
            },
            final(self).mode == old(self).mode,
            keeps_session(*old(self), *final(self)),
            keeps_recorder(*old(self), *final(self)),
    {
        if is_blank(text) || self.is_loading || !self.session_active {
            return None;
        }
        let t = str_trim(text);
        self.input_text = String::new();
        self.is_loading = true;
        let sent = t.clone();
        self.push(MsgRole::User, t, true);
        Some(sent)
    }

    /// A text message was answered: `Ok` with the reply, or `Err`. Returns
    /// the audio file to fetch and play before the exchange ends, if the
    /// reply came with one.
    pub fn reply_received(&mut self, outcome: Result<TextReply, String>) -> (r: Option<String>)
        ensures
            old(self).voice_needs_mic() ==> final(self).voice_needs_mic(),
            match outcome {
                Ok(rep) => {
                    &&& final(self).history() == match rep.reply {
                        Some(t) => kept(old(self).history().push((MsgRole::Assistant, t@))),
                        None => old(self).history(),
                    }
                    &&& match r {
                        Some(a) => audio_to_fetch(rep.reply, rep.audio_file) == Some(a@),
                        None => audio_to_fetch(rep.reply, rep.audio_file) is None,
                    }
                },
                Err(e) => {
                    &&& final(self).history() == old(self).history().push(
                        (MsgRole::System, "Error: "@ + e@),
                    )
                    &&& r is None
                },
            },
            final(self).input_text == old(self).input_text,
            final(self).is_loading == old(self).is_loading,
            final(self).mode == old(self).mode,
            keeps_session(*old(self), *final(self)),
            keeps_recorder(*old(self), *final(self)),
    {
        match outcome {
            Ok(rep) => {
                let TextReply { reply, audio_file } = rep;
                match reply {
                    Some(t) => {
                        self.push(MsgRole::Assistant, t, true);
                        match audio_file {
                            Some(a) => if is_blank_name(&a) {
                                None
                            } else {
                                Some(a)
                            },
                            None => None,
                        }
                    },
                    None => None,
                }
            },
            Err(e) => {
                let text = concat("Error: ", e.as_str());
                self.push(MsgRole::System, text, false);
                None
            },
        }
    }

    /// The user picked `mode`. Voice mode is entered only while it is
    /// available; otherwise the window says so and stays as it was.
    pub fn switch_mode(&mut self, mode: Mode)
        ensures
            old(self).voice_needs_mic() ==> final(self).voice_needs_mic(),
            if mode == Mode::Voice && !old(self).voice_available() {
                &&& final(self).mode == old(self).mode
                &&& final(self).history() == old(self).history().push(
                    (MsgRole::System, "Voice mode not available."@),
                )
            } else {
                &&& final(self).mode == mode
                &&& final(self).history() == old(self).history()
            },
            final(self).input_text == old(self).input_text,
            final(self).is_loading == old(self).is_loading,
            keeps_session(*old(self), *final(self)),
            keeps_recorder(*old(self), *final(self)),
    {
        match mode {
            Mode::Voice => {
                if !self.mic_available || !self.ffmpeg_available {
                    self.push(MsgRole::System, "Voice mode not available.".to_owned(), false);
                    return;
                }
            },
            Mode::Text => {},
        }
        self.mode = mode;
    }

    /// The microphone button was pressed. While recording, the recording
    /// stops and the window becomes busy; when a handle is held, the
    /// recording it names is to be stopped and sent. Otherwise a recording
    /// is to be started.
    pub fn toggle_recording(&mut self) -> (r: RecordingAction)
        ensures
            old(self).voice_needs_mic() ==> final(self).voice_needs_mic(),
            if old(self).is_recording {
                &&& !final(self).is_recording
                &&& final(self).is_loading
                &&& final(self).recording == old(self).recording
                &&& if old(self).recording is Some {
                    r is Stop
                } else {
                    r is Idle
                }
            } else {
                &&& r is Start
                &&& final(self).is_recording == old(self).is_recording
                &&& final(self).is_loading == old(self).is_loading
                &&& final(self).recording == old(self).recording
            },
            final(self).history() == old(self).history(),
            final(self).input_text == old(self).input_text,
            final(self).mode == old(self).mode,
            keeps_session(*old(self), *final(self)),
    {
        if self.is_recording {
            self.is_recording = false;
            self.is_loading = true;
            match &self.recording {
                Some(_) => RecordingAction::Stop,
                None => RecordingAction::Idle,
            }
        } else {
            RecordingAction::Start
        }
    }

    /// A recording started (`Ok` with its handle) or failed to.
    pub fn recording_started(&mut self, outcome: Result<H, ()>)
        ensures
            old(self).voice_needs_mic() ==> final(self).voice_needs_mic(),
            match outcome {
                Ok(h) => {
                    &&& final(self).recording == Some(h)
                    &&& final(self).is_recording
                    &&& final(self).history() == old(self).history()
                },
                Err(_) => {
                    &&& final(self).recording == old(self).recording
                    &&& final(self).is_recording == old(self).is_recording
                    &&& final(self).history() == old(self).history().push(
                        (MsgRole::System, "Failed to start recording."@),
                    )
                },
            },
            final(self).input_text == old(self).input_text,
            final(self).is_loading == old(self).is_loading,
            final(self).mode == old(self).mode,
            keeps_session(*old(self), *final(self)),
    {
        match outcome {
            Ok(h) => {
                self.recording = Some(h);
                self.is_recording = true;
            },
            Err(_) => {
                self.push(MsgRole::System, "Failed to start recording.".to_owned(), false);
            },
        }
    }

    /// A recording stopped: `Ok` with its base64 audio and MIME type (where
    /// given), or `Err`. Returns the audio to transcribe; an absent audio is
    /// empty, an absent type `audio/webm`.
    pub fn recording_stopped(&mut self, outcome: Result<(Option<String>, Option<String>), ()>) -> (r:
        Option<RecordedAudio>)
        ensures
            old(self).voice_needs_mic() ==> final(self).voice_needs_mic(),
            match outcome {
                Ok((b64, mime)) => {
                    &&& r is Some
                    &&& r->0.audio_b64@ == match b64 {
                        Some(s) => s@,
                        None => Seq::<char>::empty(),
                    }
                    &&& r->0.mime_type@ == match mime {
                        Some(s) => s@,
                        None => "audio/webm"@,
                    }
                    &&& final(self).history() == old(self).history()
                },
                Err(_) => {
                    &&& r is None
                    &&& final(self).history() == old(self).history().push(
                        (MsgRole::System, "Failed to process recording."@),
                    )
                },
            },
            final(self).input_text == old(self).input_text,
            final(self).is_loading == old(self).is_loading,
            final(self).mode == old(self).mode,
            keeps_session(*old(self), *final(self)),
            keeps_recorder(*old(self), *final(self)),
    {
        match outcome {
            Ok((b64, mime)) => {
                let audio_b64 = match b64 {
                    Some(s) => s,
                    None => String::new(),
                };
                let mime_type = match mime {
                    Some(s) => s,
                    None => "audio/webm".to_owned(),
                };
                Some(RecordedAudio { audio_b64, mime_type })
            },
            Err(_) => {
                self.push(MsgRole::System, "Failed to process recording.".to_owned(), false);
                None
            },
        }
    }

    /// A voice message was answered: `Ok` with the transcription and reply,
    /// or `Err`. What was heard joins the conversation (`(unintelligible)`
    /// when nothing was), then the reply. Returns the audio file to fetch
    /// and play before the exchange ends, if the reply came with one.
    pub fn transcription_received(&mut self, outcome: Result<VoiceReply, String>) -> (r: Option<
        String,
    >)
        ensures
            old(self).voice_needs_mic() ==> final(self).voice_needs_mic(),
            match outcome {
                Ok(rep) => {
                    let heard = match rep.transcription {
                        Some(t) => t@,
                        None => "(unintelligible)"@,
                    };
                    let with_heard = kept(old(self).history().push((MsgRole::User, heard)));
                    &&& final(self).history() == match rep.reply {
                        Some(t) => kept(with_heard.push((MsgRole::Assistant, t@))),
                        None => with_heard,
                    }
                    &&& match r {
                        Some(a) => audio_to_fetch(rep.reply, rep.audio_file) == Some(a@),
                        None => audio_to_fetch(rep.reply, rep.audio_file) is None,
                    }
                },
                Err(e) => {
                    &&& final(self).history() == old(self).history().push(
                        (MsgRole::System, "Voice error: "@ + e@),
                    )
                    &&& r is None
                },
            },
            final(self).input_text == old(self).input_text,
            final(self).is_loading == old(self).is_loading,
            final(self).mode == old(self).mode,
            keeps_session(*old(self), *final(self)),
            keeps_recorder(*old(self), *final(self)),
    {
        match outcome {
            Ok(rep) => {
                let VoiceReply { transcription, reply, audio_file } = rep;
                let heard = match transcription {
                    Some(t) => t,
                    None => "(unintelligible)".to_owned(),
                };
                self.push(MsgRole::User, heard, true);
                match reply {
                    Some(t) => {
                        self.push(MsgRole::Assistant, t, true);
                        match audio_file {
                            Some(a) => if is_blank_name(&a) {
                                None
                            } else {
                                Some(a)
                            },
                            None => None,
                        }
                    },
                    None => None,
                }
            },
            Err(e) => {
                let text = concat("Voice error: ", e.as_str());
                self.push(MsgRole::System, text, false);
                None
            },
        }
    }

    /// An exchange ended (after its audio, if any, was played): the window
    /// is no longer busy, and after a voice exchange no recording is held.
    pub fn finish_exchange(&mut self, voice: bool)
        ensures
            old(self).voice_needs_mic() ==> final(self).voice_needs_mic(),
            !final(self).is_loading,
            final(self).recording == if voice {
                None
            } else {
                old(self).recording
            },
            final(self).history() == old(self).history(),
            final(self).input_text == old(self).input_text,
            final(self).mode == old(self).mode,
            final(self).is_recording == old(self).is_recording,
            keeps_session(*old(self), *final(self)),
    {
        self.is_loading = false;
        if voice {
            self.recording = None;
        }
    }
}

/// Whether an audio file name is empty.
fn is_blank_name(name: &String) -> (r: bool)
    ensures
        r == (name@.len() == 0),
{
    name.as_str().is_empty()
}

/// A trim never leaves more than [`MAX_MESSAGES`] messages, keeps the
/// latest ones in their order, and leaves a conversation of at most
/// [`MAX_MESSAGES`] untouched.
pub proof fn law_trim_keeps_latest<A>(s: Seq<A>)
    ensures
        kept(s).len() <= MAX_MESSAGES,
        kept(s) == s.skip(s.len() - kept(s).len()),
        s.len() <= MAX_MESSAGES ==> kept(s) == s,
        s.len() > MAX_MESSAGES ==> kept(s).len() == TRIM_TO,
{
    if s.len() > MAX_MESSAGES {
        assert(kept(s) =~= s.skip(s.len() - kept(s).len()));
    } else {
        assert(s.skip(0) =~= s);
    }
}

/// A message just added is never trimmed away: it ends the conversation.
pub proof fn law_new_message_is_last<A>(s: Seq<A>, m: A)
    ensures
        kept(s.push(m)).len() > 0,
        kept(s.push(m)).last() == m,
{
}

/// One exchange at a time: while the window is busy (as an accepted
/// submit leaves it, until the exchange finishes) every submit is refused,
/// and so is a blank one at any time.
pub proof fn law_one_exchange_at_a_time<H>(state: ChatState<H>, text: Seq<char>)
    ensures
        state.is_loading ==> !state.accepts_submit(text),
        trim(text).len() == 0 ==> !state.accepts_submit(text),
        !state.session_active ==> !state.accepts_submit(text),
{
}


/// A submit is taken exactly when its text holds more than whitespace, no
/// exchange is under way and a session runs; nothing else about the
/// window (microphone, ffmpeg, warning, mode, recorder, conversation)
/// matters: two windows alike in those two flags take the same texts.
pub proof fn law_submit_taken_when_idle_in_session<H>(
    a: ChatState<H>,
    b: ChatState<H>,
    text: Seq<char>,
)
    ensures
        trim(text).len() > 0 && !a.is_loading && a.session_active ==> a.accepts_submit(text),
        a.is_loading == b.is_loading && a.session_active == b.session_active ==> (a.accepts_submit(
            text,
        ) == b.accepts_submit(text)),
{
}

/// Voice mode can be entered exactly when the microphone and ffmpeg both
/// work, whether or not an exchange is under way, a session runs, or
/// anything has been said.
pub proof fn law_voice_needs_mic_and_ffmpeg<H>(a: ChatState<H>, b: ChatState<H>)
    ensures
        a.mic_available && a.ffmpeg_available ==> a.voice_available(),
        !a.mic_available ==> !a.voice_available(),
        !a.ffmpeg_available ==> !a.voice_available(),
        a.mic_available == b.mic_available && a.ffmpeg_available == b.ffmpeg_available ==> (
        a.voice_available() == b.voice_available()),
{
}

/// Audio is fetched only after a reply that came with text, and then it is
/// the reply's own audio file, provided its name is not empty.
pub proof fn law_audio_follows_reply(reply: Option<String>, audio_file: Option<String>)
    ensures
        (match audio_to_fetch(reply, audio_file) {
            Some(x) => reply is Some && (match audio_file {
                Some(a) => a@ == x && x.len() > 0,
                None => false,
            }),
            None => true,
        }),
        (match (reply, audio_file) {
            (Some(_), Some(a)) => a@.len() > 0 ==> audio_to_fetch(reply, audio_file) == Some(a@),
            _ => audio_to_fetch(reply, audio_file) is None,
        }),
{
}

} // verus!
