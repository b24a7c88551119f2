//! The byte cursor: a forward stream over a program image that can look at
//! the next byte without taking it, and counts the bytes it hands out.

use vstd::prelude::*;

verus! {

/// A forward cursor over a byte image with a counter of the bytes taken
/// since the counter was last reset.
pub struct CountingIterator<'a> {
    bytes: &'a [u8],
    pos: usize,
    num_consumed: usize,
}

impl<'a> CountingIterator<'a> {
    #[verifier::type_invariant]
    spec fn inv(self) -> bool {
        self.num_consumed <= self.pos <= self.bytes@.len()
    }

    /// The bytes that the cursor has not handed out yet.
    pub closed spec fn remaining(self) -> Seq<u8> {
        self.bytes@.subrange(self.pos as int, self.bytes@.len() as int)
    }

    /// The number of bytes handed out since the last reset.
    pub closed spec fn consumed(self) -> nat {
        self.num_consumed as nat
    }

    /// The byte that `peek` shows: the first of the remaining ones.
    pub open spec fn peeked(self) -> Option<u8> {
        if self.remaining().len() > 0 {
            Some(self.remaining()[0])
        } else {
            None
        }
    }

    /// `self` is `before` after handing out exactly `k` more bytes.
    pub open spec fn after(self, before: Self, k: nat) -> bool {
        &&& k <= before.remaining().len()
        &&& self.remaining() == before.remaining().skip(k as int)
        &&& self.consumed() == before.consumed() + k
    }

    /// A cursor at the start of `bytes`, with the counter at zero.
    pub fn new(bytes: &'a [u8]) -> (c: Self)
        ensures
            c.remaining() == bytes@,
            c.consumed() == 0,
    {
        let c = CountingIterator { bytes, pos: 0, num_consumed: 0 };
        assert(c.remaining() =~= bytes@);
        c
    }

    /// The next byte, which stays in the stream.
    pub fn peek(&self) -> (b: Option<u8>)
        ensures
            b == self.peeked(),
    {
        proof {
            use_type_invariant(self);
        }
        if self.pos < self.bytes.len() {
            Some(self.bytes[self.pos])
        } else {
            None
        }
    }

    /// Takes the next byte out of the stream and counts it; `None`, and no
    /// change, at the end.
    pub fn next(&mut self) -> (b: Option<u8>)
        ensures
            b == old(self).peeked(),
            b is Some ==> final(self).after(*old(self), 1),
            b is None ==> *final(self) == *old(self),
    {
        proof {
            use_type_invariant(&*self);
        }
        if self.pos < self.bytes.len() {
            let b = self.bytes[self.pos];
            self.pos = self.pos + 1;
            self.num_consumed = self.num_consumed + 1;
            assert(self.remaining() =~= old(self).remaining().skip(1));
            Some(b)
        } else {
            None
        }
    }

    /// Whether every byte has been handed out.
    pub fn is_empty(&self) -> (b: bool)
        ensures
            b == (self.remaining().len() == 0),
    {
        proof {
            use_type_invariant(self);
        }
        self.pos >= self.bytes.len()
    }

    /// The number of bytes handed out since the last reset.
    pub fn num_consumed(&self) -> (n: usize)
        ensures
            n == self.consumed(),
    {
        self.num_consumed
    }

    /// Sets the counter back to zero; the stream stays where it is.
    pub fn reset(&mut self)
        ensures
            final(self).remaining() == old(self).remaining(),
            final(self).consumed() == 0,
    {
        proof {
            use_type_invariant(&*self);
        }
        self.num_consumed = 0;
    }

    /// Handing out bytes in two runs is handing them out in one.
    pub proof fn lemma_after_after(self, middle: Self, before: Self, j: nat, k: nat)
        requires
            middle.after(before, j),
            self.after(middle, k),
        ensures
            self.after(before, j + k),
    {
        assert(before.remaining().skip(j as int).skip(k as int) =~= before.remaining().skip(
            (j + k) as int,
        ));
    }
}

} // verus!
