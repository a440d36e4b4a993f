//! The commands that the chat window invokes on the desktop process, and
//! how the wrapped answer of an invocation is read.
use vstd::prelude::*;
use crate::rpc::pairs_view;

verus! {

/// A command of the desktop process, with its arguments.
pub enum Command {
    StartSession,
    GetGreeting,
    SendMessage { text: String },
    ReadAudioFile { path: String },
    TranscribeAndReply { audio_b64: String, mime_type: String },
}

impl Command {
    /// The command's name.
    pub open spec fn name_spec(&self) -> Seq<char> {
        match self {
            Command::StartSession => "start_session"@,
            Command::GetGreeting => "get_greeting"@,
            Command::SendMessage { .. } => "send_message"@,
            Command::ReadAudioFile { .. } => "read_audio_file"@,
            Command::TranscribeAndReply { .. } => "transcribe_and_reply"@,
        }
    }

    /// The command's arguments, the fields of an object whose values are
    /// all strings; `None` for a command invoked without arguments.
    pub open spec fn args_spec(&self) -> Option<Seq<(Seq<char>, Seq<char>)>> {
        match self {
            Command::SendMessage { text } => Some(seq![("text"@, text@)]),
            Command::ReadAudioFile { path } => Some(seq![("path"@, path@)]),
            Command::TranscribeAndReply { audio_b64, mime_type } => Some(
                seq![("audioB64"@, audio_b64@), ("mimeType"@, mime_type@)],
            ),
            _ => None,
        }
    }

    /// The command's name.
    pub fn name(&self) -> (r: String)
        ensures
            r@ == self.name_spec(),
    {
        match self {
            Command::StartSession => "start_session".to_owned(),
            Command::GetGreeting => "get_greeting".to_owned(),
            Command::SendMessage { .. } => "send_message".to_owned(),
            Command::ReadAudioFile { .. } => "read_audio_file".to_owned(),
            Command::TranscribeAndReply { .. } => "transcribe_and_reply".to_owned(),
        }
    }

    /// The command's arguments.
    pub fn args(&self) -> (r: Option<Vec<(String, String)>>)
        ensures
            match r {
                Some(v) => self.args_spec() == Some(pairs_view(v@)),
                None => self.args_spec() is None,
            },
    {
        match self {
            Command::SendMessage { text } => {
                let v = vec![("text".to_owned(), text.clone())];
                assert(pairs_view(v@) =~= seq![("text"@, text@)]);
                Some(v)
            },
            Command::ReadAudioFile { path } => {
                let v = vec![("path".to_owned(), path.clone())];
                assert(pairs_view(v@) =~= seq![("path"@, path@)]);
                Some(v)
            },
            Command::TranscribeAndReply { audio_b64, mime_type } => {
                let v = vec![
                    ("audioB64".to_owned(), audio_b64.clone()),
                    ("mimeType".to_owned(), mime_type.clone()),
                ];
                assert(pairs_view(v@) =~= seq![("audioB64"@, audio_b64@), ("mimeType"@, mime_type@)]);
                Some(v)
            },
            _ => None,
        }
    }
}

/// The wrapped answer of an invocation: its `ok` flag (when boolean), its
/// `value`, and its `error` (when a string).
pub struct InvokeReply<T> {
    pub ok: Option<bool>,
    pub value: Option<T>,
    pub error: Option<String>,
}

/// What an invocation answered: when `ok` is `true`, its value (`None`
/// standing for JSON `null`); otherwise its error, or `Unknown error`.
pub fn unwrap_reply<T>(reply: InvokeReply<T>) -> (r: Result<Option<T>, String>)
    ensures
        reply.ok == Some(true) ==> r == Ok::<Option<T>, String>(reply.value),
        reply.ok != Some(true) ==> (r matches Err(e) && e@ == match reply.error {
            Some(m) => m@,
            None => "Unknown error"@,
        }),
{
    let InvokeReply { ok, value, error } = reply;
    let succeeded = match ok {
        Some(b) => b,
        None => false,
    };
    if succeeded {
        Ok(value)
    } else {
        match error {
            Some(m) => Err(m),
            None => Err("Unknown error".to_owned()),
        }
    }
}

/// The error of an answer that could not be read.
pub fn parse_error_message(detail: &str) -> (r: String)
    ensures
        r@ == "Parse error: "@ + detail@,
{
    crate::text::concat("Parse error: ", detail)
}


proof fn lemma_name_shape(c: Command)
    ensures
        c.name_spec().len() == match c {
            Command::StartSession => 13int,
            Command::GetGreeting => 12int,
            Command::SendMessage { .. } => 12int,
            Command::ReadAudioFile { .. } => 15int,
            Command::TranscribeAndReply { .. } => 20int,
        },
        c.name_spec()[0] == match c {
            Command::StartSession => 's',
            Command::GetGreeting => 'g',
            Command::SendMessage { .. } => 's',
            Command::ReadAudioFile { .. } => 'r',
            Command::TranscribeAndReply { .. } => 't',
        },
{
    reveal_strlit("start_session");
    reveal_strlit("get_greeting");
    reveal_strlit("send_message");
    reveal_strlit("read_audio_file");
    reveal_strlit("transcribe_and_reply");
}

/// An invocation tells its command apart from every other: two commands
/// with the same name and arguments are the same command with the same
/// field values, each argument carrying its own field.
pub proof fn law_invocation_identifies_command(a: Command, b: Command)
    requires
        a.name_spec() == b.name_spec(),
        a.args_spec() == b.args_spec(),
    ensures
        (match (a, b) {
            (Command::StartSession, Command::StartSession) => true,
            (Command::GetGreeting, Command::GetGreeting) => true,
            (Command::SendMessage { text: t1 }, Command::SendMessage { text: t2 }) => t1@ == t2@,
            (Command::ReadAudioFile { path: p1 }, Command::ReadAudioFile { path: p2 }) => p1@
                == p2@,
            (
                Command::TranscribeAndReply { audio_b64: x1, mime_type: m1 },
                Command::TranscribeAndReply { audio_b64: x2, mime_type: m2 },
            ) => x1@ == x2@ && m1@ == m2@,
            _ => false,
        }),
{
    lemma_name_shape(a);
    lemma_name_shape(b);
    match (a.args_spec(), b.args_spec()) {
        (Some(x), Some(y)) => {
            assert(x.len() == y.len());
            if x.len() > 0 {
                assert(x[0] == y[0]);
            }
            if x.len() > 1 {
                assert(x[1] == y[1]);
            }
        },
        _ => {},
    }
}

} // verus!
