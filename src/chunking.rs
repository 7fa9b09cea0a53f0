use vstd::prelude::*;
use crate::errors::ValidationError;
use crate::naming::{pad_width_of, push_zero_padded, zero_padded};

verus! {

/// The scan counts that can be cut into `parts` booklets of folded sheets.
pub open spec fn counts_fit(count: int, parts: int) -> bool {
    count % 2 == 0 && count % parts == 0
}

/// Checks that `count` scans form `parts` equal parts of whole sheets.
pub fn check_counts(count: usize, parts: usize) -> (r: Result<(), ValidationError>)
    requires
        parts >= 1,
    ensures
        r is Ok <==> counts_fit(count as int, parts as int),
        count % 2 != 0 ==> r == Err::<(), ValidationError>(ValidationError::OddScanCount { count }),
        count % 2 == 0 && count % parts != 0 ==> r == Err::<(), ValidationError>(
            ValidationError::NotMultipleOfParts { parts, count },
        ),
{
    if count % 2 != 0 {
        Err(ValidationError::OddScanCount { count })
    } else if count % parts != 0 {
        Err(ValidationError::NotMultipleOfParts { parts, count })
    } else {
        Ok(())
    }
}

/// One sub-booklet: the scans at positions `start .. start + len` of the
/// ordered scan list, and the label its output files carry.
#[derive(Clone, Debug)]
pub struct Chunk {
    pub label: String,
    pub start: usize,
    pub len: usize,
}

/// What the `k`-th of `parts` chunks of `count` scans is.
pub open spec fn chunk_spec(c: Chunk, k: int, count: int, parts: int) -> bool {
    &&& c.start == k * (count / parts)
    &&& c.len == count / parts
    &&& c.label@ == zero_padded((k + 1) as nat, pad_width_of(parts as nat))
}

/// Cuts `count` ordered scans into `parts` contiguous chunks of equal size,
/// labelled `1..=parts`, zero-padded to `parts / 10` digits.
pub fn make_chunks(count: usize, parts: usize) -> (r: Result<Vec<Chunk>, ValidationError>)
    requires
        parts >= 1,
    ensures
        r is Ok <==> counts_fit(count as int, parts as int),
        count % 2 != 0 ==> r == Err::<Vec<Chunk>, ValidationError>(
            ValidationError::OddScanCount { count },
        ),
        count % 2 == 0 && count % parts != 0 ==> r == Err::<Vec<Chunk>, ValidationError>(
            ValidationError::NotMultipleOfParts { parts, count },
        ),
        r matches Ok(cs) ==> cs@.len() == parts && forall|k: int|
            0 <= k < parts ==> #[trigger] chunk_spec(cs@[k], k, count as int, parts as int),
{
    match check_counts(count, parts) {
        Err(e) => Err(e),
        Ok(()) => {
            let size = count / parts;
            let width = parts / 10;
            let mut chunks: Vec<Chunk> = Vec::new();
            let mut k: usize = 0;
            while k < parts
                invariant
                    k <= parts,
                    parts >= 1,
                    size == count / parts,
                    width == parts / 10,
                    chunks@.len() == k,
                    forall|j: int|
                        0 <= j < k ==> #[trigger] chunk_spec(chunks@[j], j, count as int, parts as int),
                decreases parts - k,
            {
                proof {
                    vstd::arithmetic::div_mod::lemma_fundamental_div_mod(count as int, parts as int);
                    vstd::arithmetic::mul::lemma_mul_inequality(k as int, parts as int, size as int);
                    vstd::arithmetic::mul::lemma_mul_is_commutative(k as int, size as int);
                    vstd::arithmetic::mul::lemma_mul_is_commutative(parts as int, size as int);
                }
                let start = k * size;
                let mut label = String::new();
                push_zero_padded(&mut label, k + 1, width);
                chunks.push(Chunk { label, start, len: size });
                k = k + 1;
            }
            Ok(chunks)
        },
    }
}

} // verus!
