use vstd::prelude::*;

verus! {

/// The byte value that the fixed rewrite removes: `;` (0x3B).
pub const FROM_BYTE: u8 = 59;

/// The byte value written in its place: `:` (0x3A).
pub const TO_BYTE: u8 = 58;

/// What one byte becomes under the substitution `from` -> `to`.
pub open spec fn swap_byte(from: u8, to: u8, b: u8) -> u8 {
    if b == from {
        to
    } else {
        b
    }
}

/// The meaning of the substitution on a whole stream: every byte equal to
/// `from` becomes `to`, every other byte is kept at its position, and the
/// length never changes.
pub open spec fn swap_seq(from: u8, to: u8, s: Seq<u8>) -> Seq<u8> {
    Seq::new(s.len(), |i: int| swap_byte(from, to, s[i]))
}

/// A whole stream under the fixed `;` -> `:` rule.
pub open spec fn fix_seq(s: Seq<u8>) -> Seq<u8> {
    swap_seq(FROM_BYTE, TO_BYTE, s)
}

/// Rewrites one chunk of bytes: the executable core of the substitution.
pub fn swap_bytes(from: u8, to: u8, buf: &[u8]) -> (out: Vec<u8>)
    ensures
        out@ == swap_seq(from, to, buf@),
{
    let mut out: Vec<u8> = Vec::new();
    let mut i: usize = 0;
    while i < buf.len()
        invariant
            i <= buf@.len(),
            out@.len() == i,
            forall|j: int| 0 <= j < i ==> out@[j] == swap_byte(from, to, buf@[j]),
        decreases buf@.len() - i,
    {
        let b = buf[i];
        if b == from {
            out.push(to);
        } else {
            out.push(b);
        }
        i = i + 1;
    }
    proof {
        assert(out@ =~= swap_seq(from, to, buf@));
    }
    out
}

/// Positional correctness: the output has the input's length, and at every
/// index holds `to` where the input held `from`, else the input's own byte.
pub proof fn lemma_positional_correctness(from: u8, to: u8, s: Seq<u8>)
    ensures
        swap_seq(from, to, s).len() == s.len(),
        forall|i: int|
            0 <= i < s.len() ==> swap_seq(from, to, s)[i] == (if s[i] == from {
                to
            } else {
                s[i]
            }),
{
}

/// Identity on absence: a stream with no occurrence of `from` passes through
/// unchanged, length included.
pub proof fn lemma_identity_on_absence(from: u8, to: u8, s: Seq<u8>)
    requires
        forall|i: int| 0 <= i < s.len() ==> s[i] != from,
    ensures
        swap_seq(from, to, s) == s,
{
    assert(swap_seq(from, to, s) =~= s);
}

/// Total substitution: a stream of nothing but `from`, repeated any number of
/// times, comes out as `to` repeated the same number of times.
pub proof fn lemma_total_substitution(from: u8, to: u8, s: Seq<u8>)
    requires
        forall|i: int| 0 <= i < s.len() ==> s[i] == from,
    ensures
        swap_seq(from, to, s) == Seq::new(s.len(), |i: int| to),
{
    assert(swap_seq(from, to, s) =~= Seq::new(s.len(), |i: int| to));
}

/// Chunking changes nothing: rewriting two chunks separately and joining the
/// results equals rewriting the joined stream.
pub proof fn lemma_swap_append(from: u8, to: u8, a: Seq<u8>, b: Seq<u8>)
    ensures
        swap_seq(from, to, a + b) == swap_seq(from, to, a) + swap_seq(from, to, b),
{
    assert(swap_seq(from, to, a + b) =~= swap_seq(from, to, a) + swap_seq(from, to, b));
}

/// Boundary runs: a leading run, a middle and a trailing run rewritten
/// separately give exactly the rewritten whole, so bytes at the very start
/// and very end of the stream are treated like interior ones — none dropped,
/// none duplicated.
pub proof fn lemma_boundary_runs(from: u8, to: u8, a: Seq<u8>, b: Seq<u8>, c: Seq<u8>)
    ensures
        swap_seq(from, to, a + b + c) == swap_seq(from, to, a) + swap_seq(from, to, b) + swap_seq(
            from,
            to,
            c,
        ),
{
    lemma_swap_append(from, to, a + b, c);
    lemma_swap_append(from, to, a, b);
}

/// Binary safety: any byte other than `from` — 0x00 and bytes at or above
/// 0x80 included — passes through unchanged at its position.
pub proof fn lemma_binary_safety(from: u8, to: u8, s: Seq<u8>, i: int)
    requires
        0 <= i < s.len(),
        s[i] != from,
    ensures
        swap_seq(from, to, s)[i] == s[i],
{
}

} // verus!
