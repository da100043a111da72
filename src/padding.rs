use vstd::prelude::*;

use crate::error::ProofError;

verus! {

/// `n` zero bytes.
pub open spec fn zeros(n: nat) -> Seq<u8> {
    Seq::new(n, |i: int| 0u8)
}

/// `v` preceded by as many zero bytes as bring it to `max_len` bytes.
pub open spec fn left_padded(v: Seq<u8>, max_len: nat) -> Seq<u8> {
    zeros((max_len - v.len()) as nat) + v
}

/// `v` without its first `k` bytes.
pub open spec fn strip_front(v: Seq<u8>, k: nat) -> Seq<u8> {
    v.subrange(k as int, v.len() as int)
}

/// Left-pads `v` with zero bytes to exactly `max_len` bytes; a longer `v` is
/// refused rather than truncated.
pub fn left_pad(v: &Vec<u8>, max_len: usize) -> (r: Result<Vec<u8>, ProofError>)
    ensures
        v@.len() > max_len ==> r == Err::<Vec<u8>, ProofError>(
            ProofError::DimensionExceeded { actual: v.len(), max: max_len },
        ),
        v@.len() <= max_len ==> r.is_ok() && r.unwrap()@ == left_padded(v@, max_len as nat),
{
    if v.len() > max_len {
        return Err(ProofError::DimensionExceeded { actual: v.len(), max: max_len });
    }
    let excess: usize = max_len - v.len();
    let mut out: Vec<u8> = Vec::with_capacity(max_len);
    let mut i: usize = 0;
    while i < excess
        invariant
            i <= excess,
            out@ == zeros(i as nat),
        decreases excess - i,
    {
        out.push(0u8);
        i = i + 1;
        assert(out@ =~= zeros(i as nat));
    }
    let mut j: usize = 0;
    while j < v.len()
        invariant
            j <= v@.len(),
            out@ == zeros(excess as nat) + v@.subrange(0, j as int),
        decreases v@.len() - j,
    {
        out.push(v[j]);
        j = j + 1;
        assert(out@ =~= zeros(excess as nat) + v@.subrange(0, j as int));
    }
    assert(v@.subrange(0, v@.len() as int) =~= v@);
    Ok(out)
}

/// Padding a byte string that fits, then dropping the zero bytes that padding
/// put in front of it, gives back the byte string itself.
pub proof fn lemma_left_pad_round_trip(v: Seq<u8>, max_len: nat)
    requires
        v.len() <= max_len,
    ensures
        left_padded(v, max_len).len() == max_len,
        strip_front(left_padded(v, max_len), (max_len - v.len()) as nat) == v,
        forall|i: int|
            0 <= i < max_len - v.len() ==> #[trigger] left_padded(v, max_len)[i] == 0u8,
{
    assert(strip_front(left_padded(v, max_len), (max_len - v.len()) as nat) =~= v);
}

} // verus!
