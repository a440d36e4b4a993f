//! The line-delimited JSON-RPC exchange with the Python child process:
//! which method and parameters each command sends, how request ids are
//! handed out, how a response line is routed back to the request waiting
//! for it, and what a request that gets no answer reports.
//!
//! A request travels as one line `{"method": .., "params": .., "id": ..}`;
//! a response as one line `{"id": .., "result": ..}` or
//! `{"id": .., "error": ..}`. Turning those lines into values is JSON work
//! left to the caller; this module decides what they mean.
use vstd::prelude::*;
use std::collections::HashMap;

verus! {

broadcast use vstd::std_specs::hash::group_hash_axioms;

/// How long a request waits for its response, in seconds.
pub const REQUEST_TIMEOUT_SECS: u64 = 60;

/// How long `quit` waits for the child process to exit, in seconds.
pub const QUIT_GRACE_SECS: u64 = 5;

/// A request that the desktop client sends to the Python process.
pub enum IpcCall {
    /// Open a chat session.
    StartSession,
    /// Send the user's message.
    AddMessage { text: String },
    /// Ask for the assistant's greeting.
    GetGreeting,
    /// End the session.
    Quit,
    /// Transcribe a recorded audio file and answer it.
    TranscribeAndReply { audio_file: String, mime_type: String },
}

impl IpcCall {
    /// The JSON-RPC method name of the call.
    pub open spec fn method_spec(&self) -> Seq<char> {
        match self {
            IpcCall::StartSession => "start_session"@,
            IpcCall::AddMessage { .. } => "add_message"@,
            IpcCall::GetGreeting => "get_greeting"@,
            IpcCall::Quit => "quit"@,
            IpcCall::TranscribeAndReply { .. } => "transcribe_and_reply"@,
        }
    }

    /// The parameters of the call: the fields of a JSON object whose values
    /// are all strings, by name in ascending order.
    pub open spec fn params_spec(&self) -> Seq<(Seq<char>, Seq<char>)> {
        match self {
            IpcCall::AddMessage { text } => seq![("text"@, text@)],
            IpcCall::TranscribeAndReply { audio_file, mime_type } => seq![
                ("audio_file"@, audio_file@),
                ("mime_type"@, mime_type@),
            ],
            _ => seq![],
        }
    }

    /// The JSON-RPC method name of the call.
    pub fn method(&self) -> (r: String)
        ensures
            r@ == self.method_spec(),
    {
        match self {
            IpcCall::StartSession => "start_session".to_owned(),
            IpcCall::AddMessage { .. } => "add_message".to_owned(),
            IpcCall::GetGreeting => "get_greeting".to_owned(),
            IpcCall::Quit => "quit".to_owned(),
            IpcCall::TranscribeAndReply { .. } => "transcribe_and_reply".to_owned(),
        }
    }

    /// The parameters of the call, as name and string value.
    pub fn params(&self) -> (r: Vec<(String, String)>)
        ensures
            pairs_view(r@) == self.params_spec(),
    {
        let mut r: Vec<(String, String)> = Vec::new();
        match self {
            IpcCall::AddMessage { text } => {
                r.push(("text".to_owned(), text.clone()));
            },
            IpcCall::TranscribeAndReply { audio_file, mime_type } => {
                r.push(("audio_file".to_owned(), audio_file.clone()));
                r.push(("mime_type".to_owned(), mime_type.clone()));
            },
            _ => {},
        }
        assert(pairs_view(r@) =~= self.params_spec());
        r
    }
}

/// Name-value pairs of strings, by their characters.
pub open spec fn pairs_view(p: Seq<(String, String)>) -> Seq<(Seq<char>, Seq<char>)> {
    p.map_values(|e: (String, String)| (e.0@, e.1@))
}

/// A request as it goes on the wire, before JSON encoding.
pub struct RpcRequest {
    pub method: String,
    pub params: Vec<(String, String)>,
    pub id: i64,
}

/// The request that carries `call` under the id `id`.
pub fn request_for(call: &IpcCall, id: i64) -> (r: RpcRequest)
    ensures
        r.method@ == call.method_spec(),
        pairs_view(r.params@) == call.params_spec(),
        r.id == id,
{
    RpcRequest { method: call.method(), params: call.params(), id }
}

/// The line written to the child's standard input for a request encoded as
/// `body`: the body and a newline.
pub fn request_line(body: &str) -> (r: String)
    ensures
        r@ == body@ + "\n"@,
{
    crate::text::concat(body, "\n")
}

/// Hands out request ids: 1, 2, 3, ..., wrapping around as a 64-bit
/// signed counter does.
pub struct IdAllocator {
    next: i64,
}

impl IdAllocator {
    /// The id that the next request gets.
    pub closed spec fn next_id(&self) -> i64 {
        self.next
    }

    /// A counter whose first id is 1.
    pub fn new() -> (r: IdAllocator)
        ensures
            r.next_id() == 1,
    {
        IdAllocator { next: 1 }
    }

    /// Takes the next id.
    pub fn allocate(&mut self) -> (r: i64)
        ensures
            r == old(self).next_id(),
            final(self).next_id() == old(self).next_id().wrapping_add(1),
    {
        let r = self.next;
        self.next = self.next.wrapping_add(1);
        r
    }
}

/// The `id` field of a response.
pub enum RpcId {
    /// A JSON number that fits an `i64`.
    Integer(i64),
    /// Another JSON number, by its JSON text.
    OtherNumber(String),
    /// Anything else (a string, `null`, ...).
    NotNumber,
}

/// A response line, after JSON decoding: its `id`, its `result` when present
/// and not `null`, and its `error` (as JSON text) when present and not
/// `null`.
pub struct RpcResponse<T> {
    pub id: RpcId,
    pub result: Option<T>,
    pub error: Option<String>,
}

/// The request id that a response answers: its integer id, or 0.
pub open spec fn routing_id(id: RpcId) -> i64 {
    match id {
        RpcId::Integer(i) => i,
        _ => 0,
    }
}

/// What a response reports to the request it answers: its error, prefixed
/// `Python error: `, when it has one; else its result; else `No result`.
pub open spec fn outcome_matches<T>(resp: RpcResponse<T>, r: Result<T, String>) -> bool {
    match resp.error {
        Some(e) => r matches Err(m) && m@ == "Python error: "@ + e@,
        None => match resp.result {
            Some(v) => r == Ok::<T, String>(v),
            None => r matches Err(m) && m@ == "No result"@,
        },
    }
}

/// The request id that a response answers.
pub fn response_id(id: &RpcId) -> (r: i64)
    ensures
        r == routing_id(*id),
{
    match id {
        RpcId::Integer(i) => *i,
        _ => 0,
    }
}

/// The request id that `resp` answers, and what it reports.
pub fn response_outcome<T>(resp: RpcResponse<T>) -> (r: (i64, Result<T, String>))
    ensures
        r.0 == routing_id(resp.id),
        outcome_matches(resp, r.1),
{
    let id = response_id(&resp.id);
    let RpcResponse { id: _, result, error } = resp;
    match error {
        Some(e) => (id, Err(crate::text::concat("Python error: ", e.as_str()))),
        None => match result {
            Some(v) => (id, Ok(v)),
            None => (id, Err("No result".to_owned())),
        },
    }
}

/// Why a request ended without a response.
pub enum RequestFailure {
    /// The channel that would carry the response was dropped.
    ChannelClosed,
    /// No response came within [`REQUEST_TIMEOUT_SECS`].
    TimedOut,
}

/// The error that a request ending without a response reports.
pub fn failure_message(f: &RequestFailure) -> (r: String)
    ensures
        r@ == match f {
            RequestFailure::ChannelClosed => "Response channel dropped"@,
            RequestFailure::TimedOut => "Request timed out (60s)"@,
        },
{
    match f {
        RequestFailure::ChannelClosed => "Response channel dropped".to_owned(),
        RequestFailure::TimedOut => "Request timed out (60s)".to_owned(),
    }
}

/// The error of a request made while no session is running.
pub fn no_session_message() -> (r: String)
    ensures
        r@ == "No active session"@,
{
    "No active session".to_owned()
}

/// The error that every waiting request gets when the child process closes
/// its output.
pub fn exited_message() -> (r: String)
    ensures
        r@ == "Python exited"@,
{
    "Python exited".to_owned()
}

/// Takes every entry out of `m` (`HashMap::drain`), in no particular order.
#[verifier::external_body]
fn drain_entries<S>(m: &mut HashMap<i64, S>) -> (r: Vec<(i64, S)>)
    ensures
        final(m)@.dom().is_empty(),
        forall|i: int|
            0 <= i < r@.len() ==> old(m)@.contains_key(#[trigger] r@[i].0) && old(m)@[r@[i].0]
                == r@[i].1,
        forall|i: int, j: int| 0 <= i < j < r@.len() ==> r@[i].0 != r@[j].0,
        forall|k: i64| old(m)@.contains_key(k) ==> exists|i: int| 0 <= i < r@.len() && r@[i].0 == k,
{
    m.drain().collect()
}

/// The requests waiting for a response: for each id, the handle that
/// delivers its outcome.
pub struct PendingRequests<S> {
    waiting: HashMap<i64, S>,
}

impl<S> View for PendingRequests<S> {
    type V = Map<i64, S>;

    closed spec fn view(&self) -> Map<i64, S> {
        self.waiting@
    }
}

impl<S> PendingRequests<S> {
    /// No request waiting.
    pub fn new() -> (r: Self)
        ensures
            r@ == Map::<i64, S>::empty(),
    {
        PendingRequests { waiting: HashMap::new() }
    }

    /// Whether a request with this id is waiting.
    pub fn is_waiting(&self, id: i64) -> (r: bool)
        ensures
            r == self@.contains_key(id),
    {
        self.waiting.contains_key(&id)
    }

    /// Records that the request `id` waits, with `handle` to answer it; a
    /// handle that already waited under `id` is handed back.
    pub fn register(&mut self, id: i64, handle: S) -> (r: Option<S>)
        ensures
            final(self)@ == old(self)@.insert(id, handle),
            match r {
                Some(h) => old(self)@.contains_key(id) && h == old(self)@[id],
                None => !old(self)@.contains_key(id),
            },
    {
        self.waiting.insert(id, handle)
    }

    /// Stops waiting for `id`; its handle, if it was waiting.
    pub fn take(&mut self, id: i64) -> (r: Option<S>)
        ensures
            final(self)@ == old(self)@.remove(id),
            match r {
                Some(h) => old(self)@.contains_key(id) && h == old(self)@[id],
                None => !old(self)@.contains_key(id),
            },
    {
        self.waiting.remove(&id)
    }

    /// Routes a response: the handle of the request it answers, which stops
    /// waiting, and what to hand it; `None` when no request waits under
    /// that id.
    pub fn deliver<T>(&mut self, resp: RpcResponse<T>) -> (r: Option<(S, Result<T, String>)>)
        ensures
            final(self)@ == old(self)@.remove(routing_id(resp.id)),
            match r {
                Some((h, out)) => old(self)@.contains_key(routing_id(resp.id)) && h == old(
                    self,
                )@[routing_id(resp.id)] && outcome_matches(resp, out),
                None => !old(self)@.contains_key(routing_id(resp.id)),
            },
    {
        let (id, out) = response_outcome(resp);
        match self.take(id) {
            Some(h) => Some((h, out)),
            None => None,
        }
    }

    /// A request ended without a response: it stops waiting, and the error
    /// it reports.
    pub fn abandon(&mut self, id: i64, why: &RequestFailure) -> (r: String)
        ensures
            final(self)@ == old(self)@.remove(id),
            r@ == match why {
                RequestFailure::ChannelClosed => "Response channel dropped"@,
                RequestFailure::TimedOut => "Request timed out (60s)"@,
            },
    {
        let _ = self.take(id);
        failure_message(why)
    }

    /// The child process closed its output: no request waits any more, and
    /// every request that waited is handed back, id and handle, each to be
    /// told [`exited_message`].
    pub fn close(&mut self) -> (r: Vec<(i64, S)>)
        ensures
            final(self)@ == Map::<i64, S>::empty(),
            forall|i: int|
                0 <= i < r@.len() ==> old(self)@.contains_key(#[trigger] r@[i].0) && old(
                    self,
                )@[r@[i].0] == r@[i].1,
            forall|i: int, j: int| 0 <= i < j < r@.len() ==> r@[i].0 != r@[j].0,
            forall|k: i64|
                old(self)@.contains_key(k) ==> exists|i: int| 0 <= i < r@.len() && r@[i].0 == k,
    {
        drain_entries(&mut self.waiting)
    }
}

/// A registered request is answered once: its handle waits under its id
/// until the response with that id takes it out, after which a second
/// response (or a late one, after the request was abandoned) finds nothing.
pub proof fn law_answered_once<S>(waiting: Map<i64, S>, id: i64, handle: S)
    ensures
        waiting.insert(id, handle).contains_key(id),
        waiting.insert(id, handle)[id] == handle,
        !waiting.insert(id, handle).remove(id).contains_key(id),
        !waiting.remove(id).contains_key(id),
{
}

/// The id handed out `k` allocations after one that handed out `start`:
/// `start + k`, wrapped into the range of `i64` as the counter wraps.
pub open spec fn id_after(start: i64, k: nat) -> int {
    (start - i64::MIN + k) % 0x1_0000_0000_0000_0000int + i64::MIN
}

/// Successive allocations follow [`id_after`]: the first is `start`, each
/// next one is the wrapping successor of the one before (what
/// [`IdAllocator::allocate`] computes), and ids count up by one until the
/// counter reaches its largest value.
pub proof fn law_ids_follow_counter(start: i64, k: nat)
    ensures
        id_after(start, 0) == start,
        i64::MIN <= id_after(start, k) <= i64::MAX,
        (id_after(start, k) as i64).wrapping_add(1) == id_after(start, k + 1),
        id_after(start, k) < i64::MAX ==> id_after(start, k + 1) == id_after(start, k) + 1,
{
    let m = 0x1_0000_0000_0000_0000int;
    let t = start - i64::MIN + k;
    assert(t >= 0);
    assert(0 <= t % m < m);
    assert((t + 1) % m == if t % m == m - 1 { 0 } else { t % m + 1 }) by {
        vstd::arithmetic::div_mod::lemma_add_mod_noop(t, 1, m);
        vstd::arithmetic::div_mod::lemma_small_mod(1nat, m as nat);
        vstd::arithmetic::div_mod::lemma_mod_self_0(m);
        if t % m + 1 < m {
            vstd::arithmetic::div_mod::lemma_small_mod((t % m + 1) as nat, m as nat);
        }
    }
    assert((start - i64::MIN) % m == start - i64::MIN) by {
        vstd::arithmetic::div_mod::lemma_small_mod((start - i64::MIN) as nat, m as nat);
    }
}

/// Request ids never repeat until the counter has gone all the way
/// round: any two of fewer than 2^64 successive allocations differ.
pub proof fn law_ids_distinct(start: i64, i: nat, j: nat)
    requires
        i < j < 0x1_0000_0000_0000_0000int,
    ensures
        id_after(start, i) != id_after(start, j),
{
    let m = 0x1_0000_0000_0000_0000int;
    let a = start - i64::MIN + i;
    let b = start - i64::MIN + j;
    if a % m == b % m {
        vstd::arithmetic::div_mod::lemma_mod_sub_multiples_vanish(b - a, m);
        vstd::arithmetic::div_mod::lemma_sub_mod_noop(b, a, m);
        vstd::arithmetic::div_mod::lemma_small_mod((b - a) as nat, m as nat);
        vstd::arithmetic::div_mod::lemma_mod_self_0(m);
        vstd::arithmetic::div_mod::lemma_small_mod(0nat, m as nat);
        assert((b - a) % m == 0);
    }
}

/// A response answers the request whose id it carries, or the request with
/// id 0 when its id is not an integer. A response with an error reports
/// the error whatever its result; one without an error reports its result,
/// or an error when it has none.
pub proof fn law_routing<T>(resp: RpcResponse<T>, out: Result<T, String>)
    ensures
        !(resp.id is Integer) ==> routing_id(resp.id) == 0,
        (match resp.id {
            RpcId::Integer(i) => routing_id(resp.id) == i,
            _ => true,
        }),
        resp.error is Some && outcome_matches(resp, out) ==> out is Err,
        (match (resp.error, resp.result) {
            (None, Some(v)) => outcome_matches(resp, out) ==> out == Ok::<T, String>(v),
            (None, None) => outcome_matches(resp, out) ==> out is Err,
            _ => true,
        }),
{
}


/// Each parameter of a call carries the call's own field under the field's
/// name: a message its text, a recording its file and its MIME type; the
/// other calls send no parameters.
pub proof fn law_params_carry_fields(call: IpcCall)
    ensures
        (match call {
            IpcCall::AddMessage { text } => call.params_spec().len() == 1
                && call.params_spec().contains(("text"@, text@)),
            IpcCall::TranscribeAndReply { audio_file, mime_type } => call.params_spec().len() == 2
                && call.params_spec().contains(("audio_file"@, audio_file@))
                && call.params_spec().contains(("mime_type"@, mime_type@)),
            _ => call.params_spec().len() == 0,
        }),
{
    match call {
        IpcCall::AddMessage { text } => {
            assert(call.params_spec()[0] == ("text"@, text@));
        },
        IpcCall::TranscribeAndReply { audio_file, mime_type } => {
            assert(call.params_spec()[0] == ("audio_file"@, audio_file@));
            assert(call.params_spec()[1] == ("mime_type"@, mime_type@));
        },
        _ => {},
    }
}

proof fn lemma_method_length(c: IpcCall)
    ensures
        c.method_spec().len() == match c {
            IpcCall::StartSession => 13int,
            IpcCall::AddMessage { .. } => 11int,
            IpcCall::GetGreeting => 12int,
            IpcCall::Quit => 4int,
            IpcCall::TranscribeAndReply { .. } => 20int,
        },
{
    reveal_strlit("start_session");
    reveal_strlit("add_message");
    reveal_strlit("get_greeting");
    reveal_strlit("quit");
    reveal_strlit("transcribe_and_reply");
}

/// A request tells its call apart from every other: two calls with the
/// same method and parameters are the same call with the same field
/// values.
pub proof fn law_request_identifies_call(a: IpcCall, b: IpcCall)
    requires
        a.method_spec() == b.method_spec(),
        a.params_spec() == b.params_spec(),
    ensures
        (match (a, b) {
            (IpcCall::StartSession, IpcCall::StartSession) => true,
            (IpcCall::GetGreeting, IpcCall::GetGreeting) => true,
            (IpcCall::Quit, IpcCall::Quit) => true,
            (IpcCall::AddMessage { text: t1 }, IpcCall::AddMessage { text: t2 }) => t1@ == t2@,
            (
                IpcCall::TranscribeAndReply { audio_file: f1, mime_type: m1 },
                IpcCall::TranscribeAndReply { audio_file: f2, mime_type: m2 },
            ) => f1@ == f2@ && m1@ == m2@,
            _ => false,
        }),
{
    lemma_method_length(a);
    lemma_method_length(b);
    assert(a.params_spec().len() == b.params_spec().len());
    if a.params_spec().len() > 0 {
        assert(a.params_spec()[0] == b.params_spec()[0]);
    }
    if a.params_spec().len() > 1 {
        assert(a.params_spec()[1] == b.params_spec()[1]);
    }
}

} // verus!
