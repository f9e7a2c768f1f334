//! The deterministic byte pattern behind the host's entropy hook: the
//! hosting sandbox has no OS randomness, so the hook fills a buffer
//! from a one-byte time-derived seed. The pattern itself — each
//! position offset from the seed, wrapping at a byte — is plain
//! arithmetic and is proved here; reading the time stays with the
//! adapter.

use vstd::prelude::*;

verus! {

/// Fill `len` bytes from a seed: position `i` holds
/// `(seed + i) mod 256`.
pub fn fill_from_seed(seed: u8, len: usize) -> (r: Vec<u8>)
    ensures
        r@.len() == len,
        forall|i: int| 0 <= i < len ==> r@[i] == ((seed + i) % 256) as u8,
{
    let mut out: Vec<u8> = Vec::new();
    let mut i: usize = 0;
    while i < len
        invariant
            i <= len,
            out@.len() == i,
            forall|j: int| 0 <= j < i ==> out@[j] == ((seed + j) % 256) as u8,
        decreases len - i,
    {
        let b: u8 = (((seed as usize) + (i % 256)) % 256) as u8;
        proof {
            assert((seed + i) % 256 == ((seed as int) + (i as int) % 256) % 256)
                by (nonlinear_arith);
        }
        out.push(b);
        i = i + 1;
    }
    out
}

} // verus!
