use crate::subst::fix_seq;
use crate::subst::lemma_swap_append;
use crate::subst::swap_bytes;
use crate::subst::swap_seq;
use crate::subst::FROM_BYTE;
use crate::subst::TO_BYTE;
use vstd::prelude::*;

verus! {

/// The streaming form of the substituting copy.
///
/// A caller feeds the input through `process_chunk` in chunks of any size and
/// writes each returned chunk to its sink. The ghost record `consumed` ties
/// the chunks together: the concatenation of everything handed back is
/// exactly the rewritten concatenation of everything fed in, so the copy is
/// correct for arbitrarily large streams without ever holding more than one
/// chunk in memory.
pub struct SwapByteCopier {
    /// The byte value to replace.
    pub from: u8,
    /// The byte value written in place of `from`.
    pub to: u8,
    /// How many bytes have been fed in (and, one for one, handed back).
    pub transferred: u64,
    /// The input consumed so far.
    pub consumed: Ghost<Seq<u8>>,
}

impl SwapByteCopier {
    /// The running count agrees with the length of what was consumed.
    pub open spec fn wf(&self) -> bool {
        self.transferred == self.consumed@.len()
    }

    /// A fresh copier for the substitution `from` -> `to`.
    pub fn new(from: u8, to: u8) -> (c: Self)
        ensures
            c.wf(),
            c.from == from,
            c.to == to,
            c.consumed@ == Seq::<u8>::empty(),
    {
        SwapByteCopier { from, to, transferred: 0, consumed: Ghost(Seq::empty()) }
    }

    /// A fresh copier for the fixed `;` -> `:` rule.
    pub fn fixing() -> (c: Self)
        ensures
            c.wf(),
            c.from == FROM_BYTE,
            c.to == TO_BYTE,
            c.consumed@ == Seq::<u8>::empty(),
    {
        Self::new(FROM_BYTE, TO_BYTE)
    }

    /// Rewrites one chunk of input and accounts for it: the returned chunk is
    /// the rewritten input chunk, and the stream rewritten so far is the
    /// stream rewritten before plus this chunk's output.
    pub fn process_chunk(&mut self, buf: &[u8]) -> (out: Vec<u8>)
        requires
            old(self).wf(),
            old(self).consumed@.len() + buf@.len() <= u64::MAX,
        ensures
            final(self).wf(),
            final(self).from == old(self).from,
            final(self).to == old(self).to,
            final(self).consumed@ == old(self).consumed@ + buf@,
            out@ == swap_seq(old(self).from, old(self).to, buf@),
            out@.len() == buf@.len(),
            swap_seq(final(self).from, final(self).to, final(self).consumed@) == swap_seq(
                old(self).from,
                old(self).to,
                old(self).consumed@,
            ) + out@,
    {
        let out = swap_bytes(self.from, self.to, buf);
        self.transferred = self.transferred + buf.len() as u64;
        self.consumed = Ghost(self.consumed@ + buf@);
        proof {
            lemma_swap_append(self.from, self.to, old(self).consumed@, buf@);
        }
        out
    }

    /// The number of bytes transferred so far.
    pub fn bytes_transferred(&self) -> (n: u64)
        ensures
            n == self.transferred,
    {
        self.transferred
    }
}

/// Rewrites a whole in-memory stream under the fixed `;` -> `:` rule. The
/// output has the input's length; `;` becomes `:` and nothing else changes.
pub fn fixing_copy(input: &[u8]) -> (out: Vec<u8>)
    ensures
        out@ == fix_seq(input@),
        out@.len() == input@.len(),
{
    swap_bytes(FROM_BYTE, TO_BYTE, input)
}

} // verus!
