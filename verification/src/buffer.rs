//! A growable byte window with a read cursor.
//!
//! One buffer serves each direction of a connection: the inbound one is
//! appended to as the socket yields bytes and consumed as frames complete;
//! the outbound one is appended to as replies are queued and consumed as the
//! socket accepts bytes. The view of a buffer is the sequence of unconsumed
//! bytes; everything before the cursor is gone for good.

use vstd::prelude::*;

verus! {

pub struct FrameBuffer {
    data: Vec<u8>,
    pos: usize,
    eof_flag: bool,
}

impl View for FrameBuffer {
    type V = Seq<u8>;

    /// The unconsumed bytes: everything at or after the cursor.
    closed spec fn view(&self) -> Seq<u8> {
        self.data@.skip(self.pos as int)
    }
}

impl FrameBuffer {
    /// The cursor never runs past the end of the backing storage.
    pub closed spec fn wf(self) -> bool {
        self.pos <= self.data.len()
    }

    /// Whether the most recent fill observed end-of-stream.
    pub closed spec fn eof(self) -> bool {
        self.eof_flag
    }

    pub fn new() -> (b: FrameBuffer)
        ensures
            b.wf(),
            b@ == Seq::<u8>::empty(),
            !b.eof(),
    {
        FrameBuffer { data: Vec::new(), pos: 0, eof_flag: false }
    }

    /// Record what one fill attempt on the socket produced: the bytes it
    /// yielded, and whether the peer had closed its write side.
    pub fn commit_fill(&mut self, bytes: &Vec<u8>, eof: bool)
        requires
            old(self).wf(),
        ensures
            final(self).wf(),
            final(self)@ == old(self)@ + bytes@,
            final(self).eof() == eof,
    {
        let n = bytes.len();
        let mut i: usize = 0;
        while i < n
            invariant
                i <= n,
                n == bytes@.len(),
                self.pos == old(self).pos,
                self.pos <= self.data.len(),
                self.data@ == old(self).data@ + bytes@.take(i as int),
            decreases n - i,
        {
            self.data.push(bytes[i]);
            proof {
                assert(self.data@ =~= old(self).data@ + bytes@.take(i + 1));
            }
            i = i + 1;
        }
        self.eof_flag = eof;
        proof {
            assert(bytes@.take(n as int) =~= bytes@);
            assert(self.data@.skip(self.pos as int) =~= old(self).data@.skip(
                old(self).pos as int,
            ) + bytes@);
        }
    }

    pub fn remaining_len(&self) -> (n: usize)
        requires
            self.wf(),
        ensures
            n == self@.len(),
    {
        self.data.len() - self.pos
    }

    pub fn eof_seen(&self) -> (e: bool)
        ensures
            e == self.eof(),
    {
        self.eof_flag
    }

    /// Read the byte `off` places past the cursor without consuming anything.
    pub fn peek_byte(&self, off: usize) -> (v: u8)
        requires
            self.wf(),
            off < self@.len(),
        ensures
            v == self@[off as int],
    {
        self.data[self.pos + off]
    }

    /// Consume `n` bytes: advance the cursor past them.
    pub fn skip(&mut self, n: usize)
        requires
            old(self).wf(),
            n <= old(self)@.len(),
        ensures
            final(self).wf(),
            final(self)@ == old(self)@.skip(n as int),
            final(self).eof() == old(self).eof(),
    {
        self.pos = self.pos + n;
        proof {
            assert(self.data@.skip(self.pos as int) =~= old(self)@.skip(n as int));
        }
    }

    /// Consume two bytes and return them as a big-endian integer.
    pub fn read_u16_be(&mut self) -> (v: u16)
        requires
            old(self).wf(),
            old(self)@.len() >= 2,
        ensures
            final(self).wf(),
            v == old(self)@[0] * 256 + old(self)@[1],
            final(self)@ == old(self)@.skip(2),
            final(self).eof() == old(self).eof(),
    {
        let hi = self.peek_byte(0);
        let lo = self.peek_byte(1);
        self.skip(2);
        (hi as u16) * 256 + (lo as u16)
    }

    /// Consume exactly `n` bytes and hand them out.
    pub fn read_exact(&mut self, n: usize) -> (out: Vec<u8>)
        requires
            old(self).wf(),
            n <= old(self)@.len(),
        ensures
            final(self).wf(),
            out@ == old(self)@.take(n as int),
            final(self)@ == old(self)@.skip(n as int),
            final(self).eof() == old(self).eof(),
    {
        let mut out: Vec<u8> = Vec::new();
        let mut i: usize = 0;
        while i < n
            invariant
                i <= n,
                n <= self@.len(),
                self == old(self),
                self.wf(),
                out@ == self@.take(i as int),
            decreases n - i,
        {
            let b = self.peek_byte(i);
            out.push(b);
            proof {
                assert(out@ =~= self@.take(i + 1));
            }
            i = i + 1;
        }
        self.skip(n);
        out
    }

    /// Append one byte after the unconsumed bytes.
    pub fn write_u8(&mut self, v: u8)
        requires
            old(self).wf(),
        ensures
            final(self).wf(),
            final(self)@ == old(self)@ + seq![v],
            final(self).eof() == old(self).eof(),
    {
        self.data.push(v);
        proof {
            assert(self.data@.skip(self.pos as int) =~= old(self)@ + seq![v]);
        }
    }

    /// A copy of the unconsumed bytes, for a drain attempt on the socket;
    /// `skip` records how many of them the socket accepted.
    pub fn remaining_bytes(&self) -> (out: Vec<u8>)
        requires
            self.wf(),
        ensures
            out@ == self@,
    {
        let n = self.remaining_len();
        let mut out: Vec<u8> = Vec::new();
        let mut i: usize = 0;
        while i < n
            invariant
                i <= n,
                n == self@.len(),
                self.wf(),
                out@ == self@.take(i as int),
            decreases n - i,
        {
            let b = self.peek_byte(i);
            out.push(b);
            proof {
                assert(out@ =~= self@.take(i + 1));
            }
            i = i + 1;
        }
        proof {
            assert(self@.take(n as int) =~= self@);
        }
        out
    }
}

} // verus!
