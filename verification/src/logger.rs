//! Records, the line format, and the logger that gates and emits them.

use vstd::prelude::*;
use crate::level::{
    coloured_level, filter_ordinal, level_ordinal, ColourLogLevel, Level, LevelFilter,
};
use crate::sink::{FmtError, Write};

verus! {

/// One structured log event: where it came from, how severe it is, and the
/// already-formatted message text.  The source position is carried along
/// but takes no part in the rendered line.
pub struct Record {
    pub target: String,
    pub level: Level,
    pub message: String,
    pub file: Option<String>,
    pub line: Option<u32>,
}

/// Mathematical view of a `Record`.
pub struct RecordView {
    pub target: Seq<char>,
    pub level: Level,
    pub message: Seq<char>,
    pub file: Option<Seq<char>>,
    pub line: Option<u32>,
}

impl View for Record {
    type V = RecordView;

    open spec fn view(&self) -> RecordView {
        RecordView {
            target: self.target@,
            level: self.level,
            message: self.message@,
            file: match self.file {
                Some(f) => Some(f@),
                None => None,
            },
            line: self.line,
        }
    }
}

/// What a candidate record announces before it is built: its origin and
/// severity, enough for the severity filter to decide.
pub struct Metadata {
    pub level: Level,
    pub target: String,
}

/// Step-by-step construction of a `Record`, starting from an empty target,
/// `Info` severity, an empty message and no source position.
pub struct RecordBuilder {
    pub target: String,
    pub level: Level,
    pub message: String,
    pub file: Option<String>,
    pub line: Option<u32>,
}

impl Record {
    /// Start building a record from the defaults.
    pub fn builder() -> (r: RecordBuilder)
        ensures
            r.target@ == Seq::<char>::empty(),
            r.level == Level::Info,
            r.message@ == Seq::<char>::empty(),
            r.file is None,
            r.line is None,
    {
        RecordBuilder {
            target: String::new(),
            level: Level::Info,
            message: String::new(),
            file: None,
            line: None,
        }
    }
}

impl RecordBuilder {
    /// Set the target label.
    pub fn target(self, target: &str) -> (r: Self)
        ensures
            r.target@ == target@,
            r.level == self.level,
            r.message == self.message,
            r.file == self.file,
            r.line == self.line,
    {
        RecordBuilder { target: target.to_owned(), ..self }
    }

    /// Set the severity.
    pub fn level(self, level: Level) -> (r: Self)
        ensures
            r.target == self.target,
            r.level == level,
            r.message == self.message,
            r.file == self.file,
            r.line == self.line,
    {
        RecordBuilder { level, ..self }
    }

    /// Set the message text.
    pub fn args(self, message: &str) -> (r: Self)
        ensures
            r.target == self.target,
            r.level == self.level,
            r.message@ == message@,
            r.file == self.file,
            r.line == self.line,
    {
        RecordBuilder { message: message.to_owned(), ..self }
    }

    /// Set the source file of the call site.
    pub fn file(self, file: Option<&str>) -> (r: Self)
        ensures
            r.target == self.target,
            r.level == self.level,
            r.message == self.message,
            match (r.file, file) {
                (Some(rf), Some(f)) => rf@ == f@,
                (None, None) => true,
                _ => false,
            },
            r.line == self.line,
    {
        RecordBuilder {
            file: match file {
                Some(f) => Some(f.to_owned()),
                None => None,
            },
            ..self
        }
    }

    /// Set the source line of the call site.
    pub fn line(self, line: Option<u32>) -> (r: Self)
        ensures
            r.target == self.target,
            r.level == self.level,
            r.message == self.message,
            r.file == self.file,
            r.line == line,
    {
        RecordBuilder { line, ..self }
    }

    /// Finish: a record with exactly the fields set so far.
    pub fn build(self) -> (r: Record)
        ensures
            r.target == self.target,
            r.level == self.level,
            r.message == self.message,
            r.file == self.file,
            r.line == self.line,
    {
        Record {
            target: self.target,
            level: self.level,
            message: self.message,
            file: self.file,
            line: self.line,
        }
    }
}

/// The full rendered line of a record: target, `": "`, the coloured
/// severity token, a space, the message, and a single terminating newline —
/// and not one character more.
pub open spec fn rendered_record(r: RecordView) -> Seq<char> {
    r.target + seq![':', ' '] + coloured_level(r.level) + seq![' '] + r.message + seq!['\n']
}

impl ColourLogLevel {
    /// Render this severity as its bare coloured token: reset, colour,
    /// upper-case name, reset.
    pub fn write_to<W: Write>(&self, writer: &mut W) -> (r: Result<(), FmtError>)
        ensures
            r is Ok,
            final(writer).emitted() == old(writer).emitted() + coloured_level(self.0),
    {
        let ghost start = writer.emitted();
        let r1 = writer.write_str(Self::reset_colour());
        if r1.is_err() {
            return r1;
        }
        let r2 = writer.write_str(self.as_colour_code());
        if r2.is_err() {
            return r2;
        }
        let r3 = writer.write_str(self.0.as_str());
        if r3.is_err() {
            return r3;
        }
        let r4 = writer.write_str(Self::reset_colour());
        if r4.is_err() {
            return r4;
        }
        proof {
            assert(writer.emitted() =~= start + coloured_level(self.0));
        }
        Ok(())
    }
}

/// Render `record` through `writer` as one line in the wire format of
/// `rendered_record`.  Always succeeds, and emits exactly that line.
pub fn write<W: Write>(writer: &mut W, record: &Record) -> (r: Result<(), FmtError>)
    ensures
        r is Ok,
        final(writer).emitted() == old(writer).emitted() + rendered_record(record@),
{
    let ghost start = writer.emitted();
    let r1 = writer.write_str(record.target.as_str());
    if r1.is_err() {
        return r1;
    }
    let r2 = writer.write_str(": ");
    if r2.is_err() {
        return r2;
    }
    let colour = ColourLogLevel::from(record.level);
    let r3 = colour.write_to(writer);
    if r3.is_err() {
        return r3;
    }
    let r4 = writer.write_str(" ");
    if r4.is_err() {
        return r4;
    }
    let r5 = writer.write_str(record.message.as_str());
    if r5.is_err() {
        return r5;
    }
    let r6 = writer.write_char('\n');
    if r6.is_err() {
        return r6;
    }
    proof {
        reveal_strlit(": ");
        reveal_strlit(" ");
        assert(": "@ =~= seq![':', ' ']);
        assert(" "@ =~= seq![' ']);
        assert(writer.emitted() =~= start + rendered_record(record@));
    }
    Ok(())
}

/// The logging backend: a stateless gate-and-emit pair over a character
/// sink.
pub struct XalLogger;

impl XalLogger {
    /// The severity filter: a candidate passes iff its severity is
    /// strictly more severe than the current maximum-enabled level.  A
    /// record exactly at the maximum is rejected.
    pub fn enabled(&self, metadata: &Metadata, max_level: LevelFilter) -> (r: bool)
        ensures
            r == (level_ordinal(metadata.level) < filter_ordinal(max_level)),
    {
        metadata.level.severity() < max_level.severity()
    }

    /// Emit one record as one rendered line through `writer`.  Delivery is
    /// best effort: any failure on the way out would be discarded, never
    /// surfaced to the caller.
    pub fn log<W: Write>(&self, record: &Record, writer: &mut W)
        ensures
            final(writer).emitted() == old(writer).emitted() + rendered_record(record@),
    {
        let _ = write(writer, record);
    }

    /// Nothing is buffered, so there is nothing to flush.
    pub fn flush(&self) {
    }
}

/// Rendering is a function of the record alone: two renderings of the same
/// record, wherever each starts in its output stream, append byte-identical
/// text.
pub proof fn lemma_formatting_idempotent(r: RecordView, e1: Seq<char>, e2: Seq<char>)
    ensures
        (e1 + rendered_record(r)).skip(e1.len() as int) == (e2 + rendered_record(r)).skip(
            e2.len() as int,
        ),
{
    assert((e1 + rendered_record(r)).skip(e1.len() as int) =~= rendered_record(r));
    assert((e2 + rendered_record(r)).skip(e2.len() as int) =~= rendered_record(r));
}

} // verus!
