//! An in-memory byte stream: the resource a cartridge is read from and
//! written to.
use vstd::prelude::*;

verus! {

/// Why a read or a write on a stream failed.
#[derive(Debug, Clone, Copy, PartialEq, Eq, Structural)]
pub enum StreamError {
    /// The stream ended before the requested bytes were read.
    UnexpectedEof,
    /// The stream has a fixed length and no room for the bytes to write.
    WriteZero,
}

/// The mathematical model of a stream: its bytes, split at the position.
pub struct StreamView {
    /// The bytes before the position, already read or written.
    pub behind: Seq<u8>,
    /// The bytes from the position on.
    pub ahead: Seq<u8>,
    /// Whether a write past the last byte extends the stream.
    pub growable: bool,
}

impl StreamView {
    /// All the bytes the stream holds.
    pub open spec fn bytes(self) -> Seq<u8> {
        self.behind + self.ahead
    }

    /// The model after `count` bytes were consumed, or all of them if fewer
    /// are left.
    pub open spec fn skipped(self, count: nat) -> StreamView {
        let n = if count <= self.ahead.len() {
            count as int
        } else {
            self.ahead.len() as int
        };
        StreamView {
            behind: self.behind + self.ahead.subrange(0, n),
            ahead: self.ahead.subrange(n, self.ahead.len() as int),
            growable: self.growable,
        }
    }

    /// How many of `count` bytes a write can place.
    pub open spec fn room(self, count: nat) -> nat {
        if self.growable || count <= self.ahead.len() {
            count
        } else {
            self.ahead.len()
        }
    }

    /// Whether a write of `count` bytes succeeds.
    pub open spec fn accepts(self, count: nat) -> bool {
        self.growable || count <= self.ahead.len()
    }

    /// The model after a write of `bytes`: they replace the bytes ahead one
    /// for one, and extend a growable stream when those run out. A stream of
    /// fixed length takes as many as fit.
    pub open spec fn written(self, bytes: Seq<u8>) -> StreamView {
        let n = self.room(bytes.len()) as int;
        let replaced = if n <= self.ahead.len() {
            n
        } else {
            self.ahead.len() as int
        };
        StreamView {
            behind: self.behind + bytes.subrange(0, n),
            ahead: self.ahead.subrange(replaced, self.ahead.len() as int),
            growable: self.growable,
        }
    }
}

/// What decoding a value from the bytes ahead gives: the value or what went
/// wrong, and how many bytes were consumed either way.
pub struct Decoded<T, E> {
    /// The decoded value, or the reason there is none.
    pub outcome: Result<T, E>,
    /// The number of bytes consumed.
    pub used: nat,
}

impl<T, E> Decoded<T, E> {
    /// The same outcome after `count` more bytes were consumed before it.
    pub open spec fn after(self, count: nat) -> Decoded<T, E> {
        Decoded { outcome: self.outcome, used: count + self.used }
    }
}

/// Two writes in a row are one write of the concatenation: when the first
/// one fits, and also when it does not, since a failed write fills the
/// stream to its end.
pub proof fn lemma_written_twice(s: StreamView, a: Seq<u8>, b: Seq<u8>)
    ensures
        s.accepts(a.len()) ==> s.written(a).written(b) == s.written(a + b),
        s.accepts(a.len()) ==> (s.written(a).accepts(b.len()) <==> s.accepts((a + b).len())),
        !s.accepts(a.len()) ==> s.written(a) == s.written(a + b) && !s.accepts((a + b).len()),
{
    let ab = a + b;
    if s.accepts(a.len()) {
        let first = s.written(a);
        let both = first.written(b);
        let once = s.written(ab);
        assert(a.subrange(0, a.len() as int) == a);
        assert(both.behind == once.behind);
        assert(both.ahead == once.ahead);
    } else {
        let n = s.ahead.len() as int;
        assert(a.subrange(0, n) == ab.subrange(0, n));
    }
}

/// A write of no bytes changes nothing and succeeds.
pub proof fn lemma_written_nothing(s: StreamView)
    ensures
        s.written(Seq::<u8>::empty()) == s,
        s.accepts(0),
{
    let w = s.written(Seq::<u8>::empty());
    assert(w.behind == s.behind);
    assert(w.ahead == s.ahead);
}

/// Skipping in two steps is skipping the sum.
pub proof fn lemma_skipped_twice(s: StreamView, m: nat, n: nat)
    ensures
        s.skipped(m).skipped(n) == s.skipped(m + n),
{
    let two = s.skipped(m).skipped(n);
    let one = s.skipped(m + n);
    assert(two.behind == one.behind);
    assert(two.ahead == one.ahead);
}

/// Skipping no bytes changes nothing.
pub proof fn lemma_skipped_nothing(s: StreamView)
    ensures
        s.skipped(0) == s,
{
    let t = s.skipped(0);
    assert(t.behind == s.behind);
    assert(t.ahead == s.ahead);
}

/// Skipping more than is left is skipping what is left.
pub proof fn lemma_skipped_clamps(s: StreamView, count: nat)
    ensures
        count >= s.ahead.len() ==> s.skipped(count) == s.skipped(s.ahead.len()),
{
}

/// A stream of bytes in memory with a position, for reading and writing.
///
/// Reads consume the bytes at the position. Writes replace the bytes at the
/// position and, on a growable stream, extend it. A position past the last
/// byte counts as the end of the stream.
#[derive(Debug)]
pub struct ByteStream {
    data: Vec<u8>,
    position: usize,
    growable: bool,
}

impl View for ByteStream {
    type V = StreamView;

    closed spec fn view(&self) -> StreamView {
        let at = if self.position <= self.data@.len() {
            self.position as int
        } else {
            self.data@.len() as int
        };
        StreamView {
            behind: self.data@.subrange(0, at),
            ahead: self.data@.subrange(at, self.data@.len() as int),
            growable: self.growable,
        }
    }
}

impl ByteStream {
    /// Creates a growable stream over `data`, positioned at its start.
    pub fn new(data: Vec<u8>) -> (stream: ByteStream)
        ensures
            stream@ == (StreamView { behind: Seq::<u8>::empty(), ahead: data@, growable: true }),
    {
        let stream = ByteStream { data, position: 0, growable: true };
        assert(stream@.behind == Seq::<u8>::empty());
        assert(stream@.ahead == data@);
        stream
    }

    /// Creates a stream of fixed length over `data`, positioned at its
    /// start: a write that runs past the last byte fails.
    pub fn fixed(data: Vec<u8>) -> (stream: ByteStream)
        ensures
            stream@ == (StreamView { behind: Seq::<u8>::empty(), ahead: data@, growable: false }),
    {
        let stream = ByteStream { data, position: 0, growable: false };
        assert(stream@.behind == Seq::<u8>::empty());
        assert(stream@.ahead == data@);
        stream
    }

    /// Returns the bytes of the stream.
    pub fn get_ref(&self) -> (data: &Vec<u8>)
        ensures
            data@ == self@.bytes(),
    {
        assert(self.data@ == self@.bytes());
        &self.data
    }

    /// Consumes the stream and returns its bytes.
    pub fn into_inner(self) -> (data: Vec<u8>)
        ensures
            data@ == self@.bytes(),
    {
        assert(self.data@ == self@.bytes());
        self.data
    }

    /// Returns the position: the number of bytes behind it.
    pub fn position(&self) -> (position: usize)
        ensures
            position == self@.behind.len(),
    {
        if self.position <= self.data.len() {
            self.position
        } else {
            self.data.len()
        }
    }

    /// Returns the number of bytes ahead of the position.
    pub fn remaining(&self) -> (count: usize)
        ensures
            count == self@.ahead.len(),
    {
        self.data.len() - self.position()
    }

    /// Moves the position back to the start.
    pub fn rewind(&mut self)
        ensures
            final(self)@ == (StreamView {
                behind: Seq::<u8>::empty(),
                ahead: old(self)@.bytes(),
                growable: old(self)@.growable,
            }),
    {
        assert(self.data@ == self@.bytes());
        self.position = 0;
        assert(self@.behind == Seq::<u8>::empty());
        assert(self@.ahead == self.data@);
    }

    /// Reads one byte. At the end of the stream the read fails and the
    /// stream is unchanged.
    pub fn read_u8(&mut self) -> (r: Result<u8, StreamError>)
        ensures
            final(self)@ == old(self)@.skipped(1),
            r == if old(self)@.ahead.len() > 0 {
                Ok::<u8, StreamError>(old(self)@.ahead[0])
            } else {
                Err::<u8, StreamError>(StreamError::UnexpectedEof)
            },
    {
        let at: usize = self.position();
        let r = if at < self.data.len() {
            let byte = self.data[at];
            self.position = at + 1;
            Ok(byte)
        } else {
            Err(StreamError::UnexpectedEof)
        };
        proof {
            let s = old(self)@.skipped(1);
            assert(self@.behind == s.behind);
            assert(self@.ahead == s.ahead);
        }
        r
    }

    /// Reads exactly `count` bytes. Where fewer are left the read fails and
    /// leaves the stream at its end.
    pub fn read_exact(&mut self, count: usize) -> (r: Result<Vec<u8>, StreamError>)
        ensures
            final(self)@ == old(self)@.skipped(count as nat),
            count <= old(self)@.ahead.len() ==> r is Ok && r->Ok_0@ == old(self)@.ahead.subrange(
                0,
                count as int,
            ),
            count > old(self)@.ahead.len() ==> r == Err::<Vec<u8>, StreamError>(
                StreamError::UnexpectedEof,
            ),
    {
        let start: usize = self.position();
        if count > self.data.len() - start {
            self.position = self.data.len();
            proof {
                let s = old(self)@.skipped(count as nat);
                assert(self@.behind == s.behind);
                assert(self@.ahead == s.ahead);
            }
            return Err(StreamError::UnexpectedEof);
        }
        let mut bytes: Vec<u8> = Vec::with_capacity(count);
        let mut i: usize = 0;
        while i < count
            invariant
                i <= count,
                start + count <= self.data@.len() <= usize::MAX,
                bytes@ == self.data@.subrange(start as int, start + i),
            decreases count - i,
        {
            bytes.push(self.data[start + i]);
            i = i + 1;
        }
        self.position = start + count;
        proof {
            let s = old(self)@.skipped(count as nat);
            assert(self@.behind == s.behind);
            assert(self@.ahead == s.ahead);
            assert(bytes@ == old(self)@.ahead.subrange(0, count as int));
        }
        Ok(bytes)
    }

    /// Writes one byte at the position.
    pub fn write_u8(&mut self, byte: u8) -> (r: Result<(), StreamError>)
        ensures
            final(self)@ == old(self)@.written(seq![byte]),
            r == if old(self)@.accepts(1) {
                Ok::<(), StreamError>(())
            } else {
                Err::<(), StreamError>(StreamError::WriteZero)
            },
    {
        let at: usize = self.position();
        let r = if at < self.data.len() {
            self.data.set(at, byte);
            self.position = at + 1;
            Ok(())
        } else if self.growable {
            self.data.push(byte);
            self.position = self.data.len();
            Ok(())
        } else {
            Err(StreamError::WriteZero)
        };
        proof {
            let s = old(self)@.written(seq![byte]);
            assert(self@.behind == s.behind);
            assert(self@.ahead == s.ahead);
        }
        r
    }

    /// Writes all of `bytes` at the position. On a stream of fixed length
    /// with too little room the write fails after filling the stream.
    pub fn write_all(&mut self, bytes: &[u8]) -> (r: Result<(), StreamError>)
        ensures
            final(self)@ == old(self)@.written(bytes@),
            r == if old(self)@.accepts(bytes@.len()) {
                Ok::<(), StreamError>(())
            } else {
                Err::<(), StreamError>(StreamError::WriteZero)
            },
    {
        let mut i: usize = 0;
        proof {
            lemma_written_nothing(old(self)@);
            assert(bytes@.subrange(0, 0) == Seq::<u8>::empty());
        }
        while i < bytes.len()
            invariant
                i <= bytes@.len(),
                old(self)@.accepts(i as nat),
                self@ == old(self)@.written(bytes@.subrange(0, i as int)),
            decreases bytes@.len() - i,
        {
            let ghost done = bytes@.subrange(0, i as int);
            let byte = bytes[i];
            let r = self.write_u8(byte);
            proof {
                lemma_written_twice(old(self)@, done, seq![byte]);
                assert(done + seq![byte] == bytes@.subrange(0, i + 1));
            }
            if r.is_err() {
                proof {
                    let rest = bytes@.subrange(i + 1, bytes@.len() as int);
                    let head = bytes@.subrange(0, i + 1);
                    lemma_written_twice(old(self)@, head, rest);
                    assert(head + rest == bytes@);
                }
                return r;
            }
            i = i + 1;
        }
        proof {
            assert(bytes@.subrange(0, i as int) == bytes@);
        }
        Ok(())
    }
}

} // verus!
