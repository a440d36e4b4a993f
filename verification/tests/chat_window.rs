use chatterbox_desktop::chat::{
    trim_messages, ChatState, Message, Mode, MsgRole, RecordingAction, TextReply, VoiceReply,
    MAX_MESSAGES, TRIM_TO,
};
use chatterbox_desktop::view::{
    is_submit_key, message_class, mic_button_class, mode_button_class, shows_assistant_name,
    voice_hint, warning_text,
};

fn msg(role: MsgRole, text: &str) -> Message {
    Message { role, text: text.to_string() }
}

fn last(s: &ChatState<u32>) -> (MsgRole, String) {
    let m = s.messages.last().unwrap();
    (m.role, m.text.clone())
}

fn started() -> ChatState<u32> {
    let mut s: ChatState<u32> = ChatState::new();
    s.mic_probed(true);
    s.session_starting();
    assert!(s.session_started(Ok(Some(true))));
    s.greeting_received(Ok(Some("Hi, I'm Luna".to_string())));
    s
}

#[test]
fn trim_keeps_latest_messages() {
    let mut v: Vec<Message> = (0..201).map(|i| msg(MsgRole::User, &i.to_string())).collect();
    trim_messages(&mut v);
    assert_eq!(v.len(), TRIM_TO);
    assert_eq!(v[0].text, "51");
    assert_eq!(v[TRIM_TO - 1].text, "200");
    let mut w: Vec<Message> = (0..MAX_MESSAGES).map(|i| msg(MsgRole::User, &i.to_string())).collect();
    trim_messages(&mut w);
    assert_eq!(w.len(), MAX_MESSAGES);
}

#[test]
fn window_opens_connecting() {
    let s: ChatState<u32> = ChatState::new();
    assert!(s.messages.is_empty());
    assert!(!s.is_loading && !s.session_active && !s.mic_available && s.ffmpeg_available);
    assert_eq!(s.mode, Mode::Text);
    assert!(s.shows_connecting());
    assert!(s.input_disabled());
    assert!(s.send_disabled());
}

#[test]
fn mic_failure_forces_text_mode() {
    let mut s: ChatState<u32> = ChatState::new();
    s.mic_probed(true);
    s.switch_mode(Mode::Voice);
    assert_eq!(s.mode, Mode::Voice);
    s.mic_probed(false);
    assert_eq!(s.mode, Mode::Text);
    assert!(s.show_warning && !s.mic_available);
}

#[test]
fn session_start_and_greeting() {
    let s = started();
    assert!(s.session_active && !s.is_loading && s.ffmpeg_available && !s.show_warning);
    assert_eq!(last(&s), (MsgRole::Assistant, "Hi, I'm Luna".to_string()));
    assert!(!s.shows_connecting());
}

#[test]
fn session_without_ffmpeg_warns() {
    let mut s: ChatState<u32> = ChatState::new();
    s.mic_probed(true);
    s.session_starting();
    assert!(s.session_started(Ok(None)));
    assert!(!s.ffmpeg_available && s.show_warning && s.session_active && s.is_loading);
    assert!(s.voice_disabled());
    s.greeting_received(Err("timeout".to_string()));
    assert_eq!(last(&s), (MsgRole::System, "Greeting failed: timeout".to_string()));
    assert!(!s.is_loading);
}

#[test]
fn session_start_failure() {
    let mut s: ChatState<u32> = ChatState::new();
    s.session_starting();
    assert!(!s.session_started(Err("No module named 'chatterbox'".to_string())));
    assert_eq!(
        last(&s),
        (MsgRole::System, "Failed to start session: No module named 'chatterbox'".to_string())
    );
    assert!(!s.is_loading && !s.session_active);
    assert!(!s.shows_connecting());
}

#[test]
fn submit_and_reply() {
    let mut s = started();
    s.input_changed("  hello there  ".to_string());
    assert!(!s.send_disabled());
    assert_eq!(s.submit("  hello there  "), Some("hello there".to_string()));
    assert_eq!(last(&s), (MsgRole::User, "hello there".to_string()));
    assert_eq!(s.input_text, "");
    assert!(s.is_loading && s.input_disabled());
    assert_eq!(s.submit("again"), None);
    let audio = s.reply_received(Ok(TextReply {
        reply: Some("Hello!".to_string()),
        audio_file: Some("/tmp/reply.wav".to_string()),
    }));
    assert_eq!(audio, Some("/tmp/reply.wav".to_string()));
    assert_eq!(last(&s), (MsgRole::Assistant, "Hello!".to_string()));
    assert!(s.is_loading);
    s.finish_exchange(false);
    assert!(!s.is_loading);
    assert_eq!(s.submit("next"), Some("next".to_string()));
}

#[test]
fn submit_refusals() {
    let mut s: ChatState<u32> = ChatState::new();
    assert_eq!(s.submit("hello"), None);
    let mut s = started();
    let before = s.messages.len();
    assert_eq!(s.submit(" \t\u{3000} "), None);
    assert_eq!(s.messages.len(), before);
}

#[test]
fn reply_without_audio_or_with_error() {
    let mut s = started();
    s.submit("q");
    assert_eq!(
        s.reply_received(Ok(TextReply { reply: Some("a".to_string()), audio_file: Some(String::new()) })),
        None
    );
    assert_eq!(s.reply_received(Ok(TextReply { reply: None, audio_file: Some("x".to_string()) })), None);
    assert_eq!(s.reply_received(Err("Request timed out (60s)".to_string())), None);
    assert_eq!(last(&s), (MsgRole::System, "Error: Request timed out (60s)".to_string()));
}

#[test]
fn conversation_never_exceeds_limit_after_trimmed_push() {
    let mut s = started();
    for i in 0..300 {
        s.submit(&format!("m{}", i)).unwrap();
        s.reply_received(Ok(TextReply { reply: Some(format!("r{}", i)), audio_file: None }));
        s.finish_exchange(false);
        assert!(s.messages.len() <= MAX_MESSAGES);
    }
    assert_eq!(last(&s), (MsgRole::Assistant, "r299".to_string()));
}

#[test]
fn voice_mode_switching() {
    let mut s: ChatState<u32> = ChatState::new();
    s.switch_mode(Mode::Voice);
    assert_eq!(s.mode, Mode::Text);
    assert_eq!(last(&s), (MsgRole::System, "Voice mode not available.".to_string()));
    s.mic_probed(true);
    s.switch_mode(Mode::Voice);
    assert_eq!(s.mode, Mode::Voice);
    s.switch_mode(Mode::Text);
    assert_eq!(s.mode, Mode::Text);
}

#[test]
fn recording_round() {
    let mut s = started();
    s.switch_mode(Mode::Voice);
    assert!(matches!(s.toggle_recording(), RecordingAction::Start));
    s.recording_started(Ok(77));
    assert!(s.is_recording);
    assert!(matches!(s.toggle_recording(), RecordingAction::Stop));
    assert_eq!(s.recording, Some(77));
    assert!(!s.is_recording && s.is_loading);
    let audio = s.recording_stopped(Ok((None, None))).unwrap();
    assert_eq!(audio.audio_b64, "");
    assert_eq!(audio.mime_type, "audio/webm");
    let play = s.transcription_received(Ok(VoiceReply {
        transcription: None,
        reply: Some("I heard nothing".to_string()),
        audio_file: Some("/tmp/v.wav".to_string()),
    }));
    assert_eq!(play, Some("/tmp/v.wav".to_string()));
    let n = s.messages.len();
    assert_eq!(s.messages[n - 2].text, "(unintelligible)");
    assert_eq!(s.messages[n - 2].role, MsgRole::User);
    assert_eq!(last(&s), (MsgRole::Assistant, "I heard nothing".to_string()));
    s.finish_exchange(true);
    assert!(!s.is_loading && s.recording.is_none());
}

#[test]
fn recording_failures() {
    let mut s = started();
    s.recording_started(Err(()));
    assert_eq!(last(&s), (MsgRole::System, "Failed to start recording.".to_string()));
    assert!(!s.is_recording);
    assert!(s.recording_stopped(Err(())).is_none());
    assert_eq!(last(&s), (MsgRole::System, "Failed to process recording.".to_string()));
    let a = s.recording_stopped(Ok((Some("QQ==".to_string()), Some("audio/ogg".to_string())))).unwrap();
    assert_eq!((a.audio_b64.as_str(), a.mime_type.as_str()), ("QQ==", "audio/ogg"));
    assert_eq!(s.transcription_received(Err("bad audio".to_string())), None);
    assert_eq!(last(&s), (MsgRole::System, "Voice error: bad audio".to_string()));
    let mut t = started();
    t.is_recording = true;
    assert!(matches!(t.toggle_recording(), RecordingAction::Idle));
    assert!(t.is_loading);
}

#[test]
fn view_texts() {
    assert_eq!(message_class(MsgRole::User), "message user");
    assert_eq!(message_class(MsgRole::Assistant), "message assistant");
    assert_eq!(message_class(MsgRole::System), "message system");
    assert!(shows_assistant_name(MsgRole::Assistant));
    assert!(!shows_assistant_name(MsgRole::System));
    assert_eq!(
        warning_text(false, true),
        "Microphone not available. Please allow microphone access or use text mode."
    );
    assert_eq!(
        warning_text(true, false),
        "ffmpeg not found. Voice mode requires ffmpeg. Install with: brew install ffmpeg"
    );
    assert_eq!(warning_text(true, true), "Voice mode unavailable.");
    assert_eq!(mode_button_class(Mode::Text, Mode::Text), "mode-btn active");
    assert_eq!(mode_button_class(Mode::Text, Mode::Voice), "mode-btn");
    assert_eq!(mic_button_class(true), "mic-btn recording");
    assert_eq!(mic_button_class(false), "mic-btn");
    assert_eq!(voice_hint(true), "Recording... tap to stop");
    assert_eq!(voice_hint(false), "Tap to speak");
    assert!(is_submit_key(true, false));
    assert!(!is_submit_key(true, true));
    assert!(!is_submit_key(false, false));
}
