//! The sink: level-gated rendering of log records into the exact byte text
//! that is handed to the native logging primitive.
//!
//! Text is modelled as bytes throughout, because the native boundary accepts
//! a null-terminated byte string: a rendered message may be forwarded only if
//! it contains no NUL byte, and that check is part of the sink's contract.

use vstd::prelude::*;

use crate::severity::{at_least_as_severe, native_level, native_level_spec, Severity};

verus! {

/// A structured log record, as the facade hands it to the sink.
///
/// `target` may be empty; `module` stands in for it when it is. The
/// `message` is the fully rendered message text.
pub struct LogRecord {
    /// Severity of the record.
    pub level: Severity,
    /// The record's target, possibly empty.
    pub target: Vec<u8>,
    /// The module path of the record's origin, if known.
    pub module: Option<Vec<u8>>,
    /// The rendered message text.
    pub message: Vec<u8>,
}

/// The byte `[` that opens the target prefix.
pub const OPEN_BRACKET: u8 = 91;

/// The byte `]` that closes the target prefix.
pub const CLOSE_BRACKET: u8 = 93;

/// The space between the target prefix and the message.
pub const SPACE: u8 = 32;

/// The bracketed prefix of the forwarded text: the target if non-empty,
/// otherwise the module path if present, otherwise empty.
pub open spec fn resolved_target(record: &LogRecord) -> Seq<u8> {
    if record.target@.len() > 0 {
        record.target@
    } else {
        match record.module {
            Some(m) => m@,
            None => Seq::<u8>::empty(),
        }
    }
}

/// The exact text forwarded to the native primitive: `[<target>] <message>`.
pub open spec fn rendered(record: &LogRecord) -> Seq<u8> {
    seq![OPEN_BRACKET] + resolved_target(record) + seq![CLOSE_BRACKET, SPACE] + record.message@
}

/// A byte sequence contains a NUL byte.
pub open spec fn has_nul(s: Seq<u8>) -> bool {
    exists|i: int| 0 <= i < s.len() && s[i] == 0
}

/// Append all of `src` to `dst`.
fn append_bytes(dst: &mut Vec<u8>, src: &Vec<u8>)
    ensures
        final(dst)@ == old(dst)@ + src@,
{
    let mut i: usize = 0;
    while i < src.len()
        invariant
            i <= src.len(),
            dst@ == old(dst)@ + src@.subrange(0, i as int),
        decreases src.len() - i,
    {
        dst.push(src[i]);
        assert(old(dst)@ + src@.subrange(0, i as int + 1) =~= (old(dst)@ + src@.subrange(
            0,
            i as int,
        )).push(src@[i as int]));
        i = i + 1;
    }
    assert(src@.subrange(0, src@.len() as int) =~= src@);
}

/// Render a record as the text forwarded to the native primitive.
pub fn render(record: &LogRecord) -> (out: Vec<u8>)
    ensures
        out@ == rendered(record),
{
    let mut out: Vec<u8> = Vec::new();
    out.push(OPEN_BRACKET);
    if record.target.len() > 0 {
        append_bytes(&mut out, &record.target);
    } else {
        match &record.module {
            Some(m) => append_bytes(&mut out, m),
            None => {},
        }
    }
    out.push(CLOSE_BRACKET);
    out.push(SPACE);
    append_bytes(&mut out, &record.message);
    assert(out@ =~= rendered(record));
    out
}

/// Whether `bytes` holds a NUL byte anywhere.
pub fn contains_nul(bytes: &Vec<u8>) -> (r: bool)
    ensures
        r == has_nul(bytes@),
{
    let mut i: usize = 0;
    while i < bytes.len()
        invariant
            i <= bytes.len(),
            forall|j: int| 0 <= j < i ==> bytes@[j] != 0,
        decreases bytes.len() - i,
    {
        if bytes[i] == 0 {
            assert(has_nul(bytes@)) by {
                assert(bytes@[i as int] == 0);
            }
            return true;
        }
        i = i + 1;
    }
    false
}

/// The failures this bridge can signal.
#[derive(Clone, Copy, PartialEq, Eq, Structural, Debug)]
pub enum LogError {
    /// The rendered text holds a NUL byte and cannot become a
    /// null-terminated string. The sink drops such a record and reports it,
    /// rather than truncating the text; the caller decides whether that is
    /// fatal.
    EmbeddedNulInMessage,
    /// The facade's one-time registration slot was already claimed by an
    /// unrelated sink: an unrecoverable startup configuration conflict.
    SinkAlreadyRegisteredByOther,
}

/// What the sink decides to do with one record.
#[derive(Debug)]
pub enum Dispatch {
    /// The record is below the minimum level: nothing is forwarded.
    Suppressed,
    /// Forward `text` to the native primitive under severity `code`.
    Forward {
        /// The native severity code of the record.
        code: i32,
        /// The rendered text, free of NUL bytes.
        text: Vec<u8>,
    },
}

/// The process-wide logging sink: filters records against a fixed minimum
/// level and renders the ones that pass.
///
/// A sink is immutable after construction; the registered instance lives for
/// the whole process.
#[derive(Clone, Copy, PartialEq, Eq, Structural, Debug)]
pub struct LogSink {
    /// Records less severe than this are suppressed.
    pub minimum_level: Severity,
}

impl LogSink {
    /// A sink that suppresses everything less severe than `minimum_level`.
    pub fn new(minimum_level: Severity) -> (s: LogSink)
        ensures
            s.minimum_level == minimum_level,
    {
        LogSink { minimum_level }
    }

    /// Whether a record of severity `level` would be forwarded: true iff
    /// `level` is at least as severe as the sink's minimum level.
    pub fn is_enabled(&self, level: Severity) -> (r: bool)
        ensures
            r == at_least_as_severe(level, self.minimum_level),
    {
        level.rank() >= self.minimum_level.rank()
    }

    /// Decide what to do with `record`: suppress it if it is below the
    /// minimum level; otherwise render it and hand back the native severity
    /// code and the exact forwarded text, unless the text holds a NUL byte,
    /// which is reported as `EmbeddedNulInMessage` instead of a truncated
    /// forward.
    pub fn log(&self, record: &LogRecord) -> (r: Result<Dispatch, LogError>)
        ensures
            !at_least_as_severe(record.level, self.minimum_level) ==> (r matches Ok(d) && d
                is Suppressed),
            at_least_as_severe(record.level, self.minimum_level) && has_nul(rendered(record)) ==> r
                == Err::<Dispatch, LogError>(LogError::EmbeddedNulInMessage),
            at_least_as_severe(record.level, self.minimum_level) && !has_nul(rendered(record)) ==> (
            r matches Ok(d) && d matches Dispatch::Forward { code, text } && code
                == native_level_spec(record.level) && text@ == rendered(record)),
    {
        if !self.is_enabled(record.level) {
            return Ok(Dispatch::Suppressed);
        }
        let code = native_level(record.level);
        let text = render(record);
        if contains_nul(&text) {
            return Err(LogError::EmbeddedNulInMessage);
        }
        Ok(Dispatch::Forward { code, text })
    }

    /// Deliberate no-op: the native primitive needs no explicit flushing.
    /// It has no effect on the sink or on later `log` calls.
    pub fn flush(&self) {
    }
}

} // verus!
