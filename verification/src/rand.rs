//! The injected entropy provider.
//!
//! The machine core never reads a system entropy device itself: the host
//! draws bytes and hands one to [`crate::cpu::Chip8::step`] per instruction.
//! This provider carries a host-supplied byte sequence for one run, consumed
//! front to back, so a test can substitute a fixed, reproducible sequence.
//! An exhausted provider yields `None`, which the machine reports as the
//! explicit `EntropyUnavailable` error rather than a default value.

use vstd::prelude::*;

verus! {

/// A fixed sequence of entropy bytes, consumed front to back.
pub struct Rand {
    bytes: Vec<u8>,
    pos: usize,
}

impl View for Rand {
    type V = Seq<u8>;

    /// The bytes not yet consumed.
    closed spec fn view(&self) -> Seq<u8> {
        self.bytes@.skip(self.pos as int)
    }
}

impl Rand {
    /// The provider's cursor never passes the end of its buffer.
    pub closed spec fn wf(&self) -> bool {
        self.pos <= self.bytes@.len()
    }

    /// A provider over the given bytes, none consumed yet.
    pub fn new(bytes: Vec<u8>) -> (r: Self)
        ensures
            r.wf(),
            r@ == bytes@,
    {
        let r = Rand { bytes, pos: 0 };
        proof {
            assert(r@ =~= r.bytes@);
        }
        r
    }

    /// How many bytes are left.
    pub fn remaining(&self) -> (n: usize)
        requires
            self.wf(),
        ensures
            n == self@.len(),
    {
        self.bytes.len() - self.pos
    }

    /// Draw the next byte: the front of the remaining sequence, or `None`
    /// once the sequence is exhausted.
    pub fn random_u8(&mut self) -> (r: Option<u8>)
        requires
            old(self).wf(),
        ensures
            final(self).wf(),
            old(self)@.len() > 0 ==> r == Some(old(self)@[0]) && final(self)@ == old(self)@.skip(
                1,
            ),
            old(self)@.len() == 0 ==> r == None::<u8> && final(self)@ == old(self)@,
    {
        if self.pos < self.bytes.len() {
            let b = self.bytes[self.pos];
            self.pos = self.pos + 1;
            proof {
                assert(self@ =~= old(self)@.skip(1));
            }
            Some(b)
        } else {
            None
        }
    }
}

} // verus!
