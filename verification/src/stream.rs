//! Where the bytes come from.

use vstd::prelude::*;
use crate::error::DecodeError;

verus! {

/// A source of bytes that hands them out one at a time, in order.
///
/// The model of a source is the sequence of bytes that it has yet to hand
/// out. Nothing but `next` is assumed of it: it cannot be rewound.
pub trait ByteStream {
    /// The bytes not yet handed out, the next one first.
    spec fn remaining(&self) -> Seq<u8>;

    /// Hands out the next byte, or fails with `StreamExhausted` at the end.
    /// At the end the source stays at the end.
    fn next(&mut self) -> (r: Result<u8, DecodeError>)
        ensures
            old(self).remaining().len() > 0 ==> r == Ok::<u8, DecodeError>(
                old(self).remaining()[0],
            ),
            old(self).remaining().len() == 0 ==> r == Err::<u8, DecodeError>(
                DecodeError::StreamExhausted,
            ),
            final(self).remaining() == after(old(self).remaining(), 1),
    ;
}

/// What is left of `bytes` once `n` of them have been taken from the front,
/// or nothing where there are fewer than `n`.
pub open spec fn after(bytes: Seq<u8>, n: nat) -> Seq<u8> {
    if n <= bytes.len() {
        bytes.skip(n as int)
    } else {
        Seq::empty()
    }
}

/// A byte source over a buffer in memory.
pub struct MemoryStream {
    /// The buffer.
    pub bytes: Vec<u8>,
    /// The number of bytes handed out so far.
    pub position: usize,
}

impl MemoryStream {
    /// A source that hands out `bytes` from the first one on.
    pub fn new(bytes: Vec<u8>) -> (s: MemoryStream)
        ensures
            s.bytes == bytes,
            s.position == 0,
            s.remaining() == bytes@,
    {
        let s = MemoryStream { bytes, position: 0 };
        assert(s.remaining() =~= s.bytes@);
        s
    }

    /// The number of bytes handed out so far.
    pub fn position(&self) -> (n: usize)
        ensures
            n == self.position,
    {
        self.position
    }
}

impl ByteStream for MemoryStream {
    open spec fn remaining(&self) -> Seq<u8> {
        after(self.bytes@, self.position as nat)
    }

    fn next(&mut self) -> (r: Result<u8, DecodeError>)
        ensures
            final(self).bytes == old(self).bytes,
            final(self).position == if old(self).position < old(self).bytes.len() {
                old(self).position + 1
            } else {
                old(self).position as int
            },
    {
        if self.position < self.bytes.len() {
            let b = self.bytes[self.position];
            self.position = self.position + 1;
            assert(self.remaining() =~= after(old(self).remaining(), 1));
            Ok(b)
        } else {
            assert(self.remaining() =~= after(old(self).remaining(), 1));
            Err(DecodeError::StreamExhausted)
        }
    }
}

} // verus!
