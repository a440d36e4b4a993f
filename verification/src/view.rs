//! What the chat window shows for a given state: which screen, which
//! controls are enabled, and the text and style classes of its parts.
use vstd::prelude::*;
use crate::chat::{ChatState, Mode, MsgRole};
use crate::text::{trim, is_blank};

verus! {

/// The style class of a message bubble's row.
pub fn message_class(role: MsgRole) -> (r: String)
    ensures
        r@ == match role {
            MsgRole::User => "message user"@,
            MsgRole::Assistant => "message assistant"@,
            MsgRole::System => "message system"@,
        },
{
    match role {
        MsgRole::User => "message user".to_owned(),
        MsgRole::Assistant => "message assistant".to_owned(),
        MsgRole::System => "message system".to_owned(),
    }
}

/// Whether a message shows the assistant's name above its text.
pub fn shows_assistant_name(role: MsgRole) -> (r: bool)
    ensures
        r == (role == MsgRole::Assistant),
{
    match role {
        MsgRole::Assistant => true,
        _ => false,
    }
}

/// The text of the warning banner.
pub fn warning_text(mic_available: bool, ffmpeg_available: bool) -> (r: String)
    ensures
        r@ == if !mic_available {
            "Microphone not available. Please allow microphone access or use text mode."@
        } else if !ffmpeg_available {
            "ffmpeg not found. Voice mode requires ffmpeg. Install with: brew install ffmpeg"@
        } else {
            "Voice mode unavailable."@
        },
{
    if !mic_available {
        "Microphone not available. Please allow microphone access or use text mode.".to_owned()
    } else if !ffmpeg_available {
        "ffmpeg not found. Voice mode requires ffmpeg. Install with: brew install ffmpeg".to_owned()
    } else {
        "Voice mode unavailable.".to_owned()
    }
}

/// The style class of the button for `button` while `current` is the mode.
pub fn mode_button_class(current: Mode, button: Mode) -> (r: String)
    ensures
        r@ == if current == button {
            "mode-btn active"@
        } else {
            "mode-btn"@
        },
{
    let same = match (current, button) {
        (Mode::Text, Mode::Text) => true,
        (Mode::Voice, Mode::Voice) => true,
        _ => false,
    };
    if same {
        "mode-btn active".to_owned()
    } else {
        "mode-btn".to_owned()
    }
}

/// The style class of the microphone button.
pub fn mic_button_class(is_recording: bool) -> (r: String)
    ensures
        r@ == if is_recording {
            "mic-btn recording"@
        } else {
            "mic-btn"@
        },
{
    if is_recording {
        "mic-btn recording".to_owned()
    } else {
        "mic-btn".to_owned()
    }
}

/// The hint beside the microphone button.
pub fn voice_hint(is_recording: bool) -> (r: String)
    ensures
        r@ == if is_recording {
            "Recording... tap to stop"@
        } else {
            "Tap to speak"@
        },
{
    if is_recording {
        "Recording... tap to stop".to_owned()
    } else {
        "Tap to speak".to_owned()
    }
}

/// Whether a key press sends the input line: Enter without Shift.
pub fn is_submit_key(is_enter: bool, shift: bool) -> (r: bool)
    ensures
        r == (is_enter && !shift),
{
    is_enter && !shift
}

impl<H> ChatState<H> {
    /// Whether the window shows the connecting screen: no session yet and
    /// no message to show.
    pub fn shows_connecting(&self) -> (r: bool)
        ensures
            r == (!self.session_active && self.messages@.len() == 0),
    {
        !self.session_active && self.messages.len() == 0
    }

    /// Whether the input line and the microphone button are disabled.
    pub fn input_disabled(&self) -> (r: bool)
        ensures
            r == (self.is_loading || !self.session_active),
    {
        self.is_loading || !self.session_active
    }

    /// Whether sending is disabled: the window is busy, no session runs, or
    /// the input line holds only whitespace.
    pub fn send_disabled(&self) -> (r: bool)
        ensures
            r == (self.is_loading || !self.session_active || trim(self.input_text@).len() == 0),
    {
        self.is_loading || !self.session_active || is_blank(self.input_text.as_str())
    }

    /// Whether the voice mode button is disabled.
    pub fn voice_disabled(&self) -> (r: bool)
        ensures
            r == !self.voice_available(),
    {
        !self.mic_available || !self.ffmpeg_available
    }
}

} // verus!
