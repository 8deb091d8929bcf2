//! Command results on their way back to JavaScript: the JSON envelopes that
//! the `invoke` and `invokeStream` wrappers read, and the bookkeeping of
//! running streaming commands: each live stream's cancel flag (so JavaScript
//! can ask its handler to stop), and the stream epoch, bumped on every hot
//! reload so that late messages from a superseded bundle's handlers are
//! dropped instead of reaching a reused stream id. `C` is the cancel flag
//! shared with the handler.

use vstd::prelude::*;

use std::collections::HashMap;

verus! {

/// The live streams and the current epoch.
pub struct StreamTable<C> {
    cancels: HashMap<u64, C>,
    epoch: u64,
}

impl<C> StreamTable<C> {
    /// Cancel flag of each live stream, by stream id.
    pub closed spec fn live(&self) -> Map<u64, C> {
        self.cancels@
    }

    /// The epoch messages are currently stamped with.
    pub closed spec fn spec_epoch(&self) -> u64 {
        self.epoch
    }

    pub fn new() -> (r: Self)
        ensures
            r.live() == Map::<u64, C>::empty(),
            r.spec_epoch() == 0,
    {
        StreamTable { cancels: HashMap::new(), epoch: 0 }
    }

    /// Whether a message stamped `epoch` is delivered: it is of the current epoch.
    pub open spec fn accepts(&self, epoch: u64) -> bool {
        epoch == self.spec_epoch()
    }

    /// The current epoch.
    pub fn epoch(&self) -> (r: u64)
        ensures
            r == self.spec_epoch(),
    {
        self.epoch
    }

    /// A stream starts: remember its cancel flag; its messages carry the
    /// returned epoch.
    pub fn register(&mut self, stream_id: u64, cancel: C) -> (r: u64)
        ensures
            final(self).live() == old(self).live().insert(stream_id, cancel),
            final(self).spec_epoch() == old(self).spec_epoch(),
            r == old(self).spec_epoch(),
    {
        self.cancels.insert(stream_id, cancel);
        self.epoch
    }

    /// The cancel flag of a live stream (to set when JavaScript cancels it).
    /// The entry stays until the stream's terminal message is delivered.
    pub fn cancel_flag(&self, stream_id: u64) -> (r: Option<&C>)
        ensures
            match r {
                Some(c) => self.live().contains_key(stream_id) && *c == self.live()[stream_id],
                None => !self.live().contains_key(stream_id),
            },
    {
        self.cancels.get(&stream_id)
    }

    /// A stream fails before any handler runs: forget it; its error message
    /// carries the returned epoch.
    pub fn error_stream(&mut self, stream_id: u64) -> (r: u64)
        ensures
            final(self).live() == old(self).live().remove(stream_id),
            final(self).spec_epoch() == old(self).spec_epoch(),
            r == old(self).spec_epoch(),
    {
        self.cancels.remove(&stream_id);
        self.epoch
    }

    /// Whether a drained message stamped `epoch` for `stream_id` is delivered:
    /// only messages of the current epoch are; a delivered terminal message
    /// (end or error) retires the stream.
    pub fn accept_message(&mut self, epoch: u64, stream_id: u64, terminal: bool) -> (r: bool)
        ensures
            r == old(self).accepts(epoch),
            final(self).spec_epoch() == old(self).spec_epoch(),
            final(self).live() == (if r && terminal {
                old(self).live().remove(stream_id)
            } else {
                old(self).live()
            }),
    {
        if epoch != self.epoch {
            return false;
        }
        if terminal {
            self.cancels.remove(&stream_id);
        }
        true
    }

    /// Hot reload: hand back every live stream's cancel flag (to set, so
    /// the old handlers wind down), forget them, and start a new epoch.
    pub fn reset_for_reload(&mut self) -> (r: HashMap<u64, C>)
        ensures
            r@ == old(self).live(),
            final(self).live() == Map::<u64, C>::empty(),
            final(self).spec_epoch() == spec_next_epoch(old(self).spec_epoch()),
    {
        let mut old_cancels: HashMap<u64, C> = HashMap::new();
        std::mem::swap(&mut self.cancels, &mut old_cancels);
        self.epoch = self.epoch.wrapping_add(1);
        old_cancels
    }
}

/// The epoch after a reload (wrapping).
pub open spec fn spec_next_epoch(e: u64) -> u64 {
    if e == u64::MAX {
        0
    } else {
        (e + 1) as u64
    }
}

/// After a hot reload, no message stamped in the epoch before it is
/// delivered.
pub proof fn lemma_reload_drops_stale_messages<C>(before: StreamTable<C>, after: StreamTable<C>)
    requires
        after.spec_epoch() == spec_next_epoch(before.spec_epoch()),
    ensures
        !after.accepts(before.spec_epoch()),
{
}

#[verifier::external_type_specification]
#[verifier::external_body]
pub struct ExJsonValue(serde_json::Value);

#[verifier::external_type_specification]
#[verifier::external_body]
pub struct ExJsonError(serde_json::Error);

/// A hexadecimal digit, lower case.
pub open spec fn hex_digit(d: int) -> char {
    if d < 10 {
        ('0' as int + d) as char
    } else {
        ('a' as int + d - 10) as char
    }
}

/// How `serde_json` writes one character inside a JSON string: `"` and `\`
/// behind a backslash; backspace, tab, line feed, form feed and carriage
/// return as `\b`, `\t`, `\n`, `\f`, `\r`; any other character below
/// U+0020 as `\u00XX` (lower-case hex); every other character as itself.
pub open spec fn json_char_escape(c: char) -> Seq<char> {
    let v = c as int;
    if c == '"' {
        seq!['\\', '"']
    } else if c == '\\' {
        seq!['\\', '\\']
    } else if v == 0x08 {
        seq!['\\', 'b']
    } else if v == 0x09 {
        seq!['\\', 't']
    } else if v == 0x0a {
        seq!['\\', 'n']
    } else if v == 0x0c {
        seq!['\\', 'f']
    } else if v == 0x0d {
        seq!['\\', 'r']
    } else if v < 0x20 {
        seq!['\\', 'u', '0', '0', hex_digit(v / 16), hex_digit(v % 16)]
    } else {
        seq![c]
    }
}

/// The characters of `s`, each escaped as in a JSON string.
pub open spec fn json_escaped(s: Seq<char>) -> Seq<char>
    decreases s.len(),
{
    if s.len() == 0 {
        Seq::empty()
    } else {
        json_escaped(s.drop_last()) + json_char_escape(s.last())
    }
}

/// The JSON text of a string: its escaped characters between quotes.
pub open spec fn json_string_text(s: Seq<char>) -> Seq<char> {
    seq!['"'] + json_escaped(s) + seq!['"']
}

/// The compact JSON text `serde_json` writes for a value.
pub uninterp spec fn json_value_text(v: serde_json::Value) -> Seq<char>;

/// `serde_json::to_string` of a string: its JSON text. It does not fail: the
/// output goes to a `Vec` and a string always serialises.
#[verifier::external_body]
fn quote_json(s: &str) -> (r: Result<String, serde_json::Error>)
    ensures
        r is Ok,
        r matches Ok(t) ==> t@ == json_string_text(s@),
{
    serde_json::to_string(s)
}

/// `serde_json::to_string` of a JSON value (compact): the text named by
/// [`json_value_text`]. It does not fail: the output goes to a `Vec`, object
/// keys are strings and a `Value` holds no non-finite number.
#[verifier::external_body]
fn value_json(v: &serde_json::Value) -> (r: Result<String, serde_json::Error>)
    ensures
        r is Ok,
        r matches Ok(t) ==> t@ == json_value_text(*v),
{
    serde_json::to_string(v)
}

/// The result of a plugin command: a JSON value, or an error message.
pub type CommandResult = Result<serde_json::Value, String>;

/// The `invoke` envelope of a success whose value serialises to
/// `value_json` (`None`: it could not be serialised).
pub fn ok_envelope(value_json: Option<&str>) -> (r: String)
    ensures
        match value_json {
            Some(t) => r@ == "{\"ok\":true,\"value\":"@ + t@ + "}"@,
            None => r@ == "{\"ok\":true,\"value\":null}"@,
        },
{
    match value_json {
        Some(t) => {
            let mut out = String::from_str("{\"ok\":true,\"value\":");
            out.append(t);
            out.append("}");
            out
        },
        None => String::from_str("{\"ok\":true,\"value\":null}"),
    }
}

/// The `invoke` envelope of a failure whose message serialises to
/// `error_json` (`None`: it could not be serialised).
pub fn err_envelope(error_json: Option<&str>) -> (r: String)
    ensures
        match error_json {
            Some(q) => r@ == "{\"error\":"@ + q@ + ",\"ok\":false}"@,
            None => r@ == "{\"ok\":false,\"error\":\"serialization error\"}"@,
        },
{
    match error_json {
        Some(q) => {
            let mut out = String::from_str("{\"error\":");
            out.append(q);
            out.append(",\"ok\":false}");
            out
        },
        None => String::from_str("{\"ok\":false,\"error\":\"serialization error\"}"),
    }
}

/// Encode a command result as the JSON envelope the JavaScript `invoke`
/// wrapper expects: `{"ok":true,"value":…}` or `{"error":…,"ok":false}`.
pub fn encode_invoke_result(result: CommandResult) -> (r: String)
    ensures
        result matches Ok(v) ==> r@ == "{\"ok\":true,\"value\":"@ + json_value_text(v) + "}"@,
        result matches Err(m) ==> r@ == "{\"error\":"@ + json_string_text(m@) + ",\"ok\":false}"@,
{
    match result {
        Ok(v) => match value_json(&v) {
            Ok(t) => ok_envelope(Some(t.as_str())),
            Err(_) => ok_envelope(None),
        },
        Err(m) => match quote_json(m.as_str()) {
            Ok(q) => err_envelope(Some(q.as_str())),
            Err(_) => err_envelope(None),
        },
    }
}

/// A message of a stream, delivered to JavaScript in order.
pub enum StreamMessage {
    /// A data chunk.
    Chunk(serde_json::Value),
    /// Graceful completion.
    End,
    /// Failure, with its message.
    Error(String),
}

/// The stream envelope of a chunk whose value serialises to `value_json`
/// (`None`: it could not be serialised).
pub fn chunk_envelope(value_json: Option<&str>) -> (r: String)
    ensures
        match value_json {
            Some(t) => r@ == "{\"t\":\"chunk\",\"value\":"@ + t@ + "}"@,
            None => r@ == "{\"t\":\"error\",\"error\":\"encode failed\"}"@,
        },
{
    match value_json {
        Some(t) => {
            let mut out = String::from_str("{\"t\":\"chunk\",\"value\":");
            out.append(t);
            out.append("}");
            out
        },
        None => String::from_str("{\"t\":\"error\",\"error\":\"encode failed\"}"),
    }
}

/// The stream envelope of an error whose message serialises to `error_json`
/// (`None`: it could not be serialised).
pub fn error_envelope(error_json: Option<&str>) -> (r: String)
    ensures
        match error_json {
            Some(q) => r@ == "{\"error\":"@ + q@ + ",\"t\":\"error\"}"@,
            None => r@ == "{\"t\":\"error\",\"error\":\"encode failed\"}"@,
        },
{
    match error_json {
        Some(q) => {
            let mut out = String::from_str("{\"error\":");
            out.append(q);
            out.append(",\"t\":\"error\"}");
            out
        },
        None => String::from_str("{\"t\":\"error\",\"error\":\"encode failed\"}"),
    }
}

/// Encode a stream message as the JSON envelope the JavaScript
/// `invokeStream` wrapper expects: `{"t":"chunk","value":…}`, `{"t":"end"}`
/// or `{"error":…,"t":"error"}`.
pub fn encode_stream_message(msg: &StreamMessage) -> (r: String)
    ensures
        msg matches StreamMessage::Chunk(v) ==> r@ == "{\"t\":\"chunk\",\"value\":"@ + json_value_text(*v)
            + "}"@,
        msg is End ==> r@ == "{\"t\":\"end\"}"@,
        msg matches StreamMessage::Error(m) ==> r@ == "{\"error\":"@ + json_string_text(m@) + ",\"t\":\"error\"}"@,
{
    match msg {
        StreamMessage::Chunk(v) => match value_json(v) {
            Ok(t) => chunk_envelope(Some(t.as_str())),
            Err(_) => chunk_envelope(None),
        },
        StreamMessage::End => String::from_str("{\"t\":\"end\"}"),
        StreamMessage::Error(m) => match quote_json(m.as_str()) {
            Ok(q) => error_envelope(Some(q.as_str())),
            Err(_) => error_envelope(None),
        },
    }
}

/// The error of a command whose required argument `field` is absent.
pub fn missing_argument(field: &str) -> (r: String)
    ensures
        r@ == "missing argument `"@ + field@ + "`"@,
{
    let mut m = String::from_str("missing argument `");
    m.append(field);
    m.append("`");
    m
}

/// The error of a command whose argument `field` is present but of the wrong
/// type, for the reason `why`.
pub fn invalid_argument(field: &str, why: &str) -> (r: String)
    ensures
        r@ == "invalid argument `"@ + field@ + "`: "@ + why@,
{
    let mut m = String::from_str("invalid argument `");
    m.append(field);
    m.append("`: ");
    m.append(why);
    m
}

} // verus!
