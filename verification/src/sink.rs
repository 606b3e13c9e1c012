//! The character sink: a narrow interface over a one-character-at-a-time
//! output primitive, and a writer that feeds it text.

use vstd::prelude::*;
use vstd::string::StrSliceExecFns;

verus! {

/// Error reported by the formatting interface.  The sink itself never
/// fails, so a value of this type is never actually produced by this crate;
/// the type exists to give the write operations the shape formatting
/// interfaces expect.
#[derive(Clone, Copy, PartialEq, Eq, Structural, Debug)]
pub struct FmtError;

/// A one-character output primitive.
///
/// `emitted` is the sequence of characters handed to the primitive so far,
/// in order.  The return value of `put_char` mirrors a transport's status
/// code; callers ignore it, and nothing is promised about it.
pub trait PutChar {
    spec fn emitted(&self) -> Seq<char>;

    fn put_char(&mut self, c: char) -> (r: i32)
        ensures
            final(self).emitted() == old(self).emitted().push(c),
    ;
}

/// A character-oriented writer.
///
/// Both operations always succeed and extend `emitted` by exactly the text
/// written, in order, with no buffering in between.
pub trait Write {
    spec fn emitted(&self) -> Seq<char>;

    fn write_str(&mut self, s: &str) -> (r: Result<(), FmtError>)
        ensures
            r is Ok,
            final(self).emitted() == old(self).emitted() + s@,
    ;

    fn write_char(&mut self, c: char) -> (r: Result<(), FmtError>)
        ensures
            r is Ok,
            final(self).emitted() == old(self).emitted().push(c),
    ;
}

/// The sink: forwards every character of the text it is given, in order and
/// one at a time, to the output primitive it wraps.  It keeps no state of
/// its own and never reports failure, whatever the primitive returns.
pub struct XalWriter<P: PutChar> {
    pub out: P,
}

impl<P: PutChar> XalWriter<P> {
    /// Wrap an output primitive.
    pub fn new(out: P) -> (r: Self)
        ensures
            r.out == out,
    {
        XalWriter { out }
    }
}

impl<P: PutChar> Write for XalWriter<P> {
    open spec fn emitted(&self) -> Seq<char> {
        self.out.emitted()
    }

    fn write_str(&mut self, s: &str) -> (r: Result<(), FmtError>) {
        let ghost start = self.out.emitted();
        let n = s.unicode_len();
        let mut i: usize = 0;
        while i < n
            invariant
                i <= n,
                n == s@.len(),
                self.out.emitted() == start + s@.subrange(0, i as int),
            decreases n - i,
        {
            let c = s.get_char(i);
            self.out.put_char(c);
            proof {
                assert(self.out.emitted() =~= start + s@.subrange(0, i + 1));
            }
            i = i + 1;
        }
        proof {
            assert(s@.subrange(0, n as int) =~= s@);
        }
        Ok(())
    }

    fn write_char(&mut self, c: char) -> (r: Result<(), FmtError>) {
        self.out.put_char(c);
        Ok(())
    }
}

/// An in-memory output primitive that records every character it is handed;
/// the stand-in for the real transport when the output is to be inspected.
pub struct BufferSink {
    pub chars: Vec<char>,
}

impl BufferSink {
    /// An empty buffer.
    pub fn new() -> (r: Self)
        ensures
            r.emitted() == Seq::<char>::empty(),
    {
        BufferSink { chars: Vec::new() }
    }
}

impl PutChar for BufferSink {
    open spec fn emitted(&self) -> Seq<char> {
        self.chars@
    }

    fn put_char(&mut self, c: char) -> (r: i32) {
        self.chars.push(c);
        0
    }
}

} // verus!
