//! A 16-bit Fletcher checksum over a byte buffer.
use vstd::prelude::*;

verus! {

/// The two running sums of the Fletcher algorithm after reading `s`, each
/// kept modulo 255.
pub open spec fn fletcher_sums(s: Seq<u8>) -> (nat, nat)
    decreases s.len(),
{
    if s.len() == 0 {
        (0, 0)
    } else {
        let prev = fletcher_sums(s.drop_last());
        let a = ((prev.0 + s.last()) % 255) as nat;
        let b = ((prev.1 + a) % 255) as nat;
        (a, b)
    }
}

/// The checksum of `s`: the second sum in the high byte, the first in the low byte.
pub open spec fn fletcher16_spec(s: Seq<u8>) -> u16 {
    let sums = fletcher_sums(s);
    (sums.1 * 256 + sums.0) as u16
}

proof fn lemma_sums_bounded(s: Seq<u8>)
    ensures
        fletcher_sums(s).0 < 255,
        fletcher_sums(s).1 < 255,
    decreases s.len(),
{
    if s.len() > 0 {
        lemma_sums_bounded(s.drop_last());
    }
}

/// Fingerprint of a byte buffer; defined for every buffer, the empty one included.
pub fn fletcher16(data: &[u8]) -> (r: u16)
    ensures
        r == fletcher16_spec(data@),
        r as int == fletcher_sums(data@).1 * 256 + fletcher_sums(data@).0,
{
    let mut sum1: u16 = 0;
    let mut sum2: u16 = 0;
    let mut i: usize = 0;
    while i < data.len()
        invariant
            i <= data@.len(),
            sum1 < 255,
            sum2 < 255,
            (sum1 as nat, sum2 as nat) == fletcher_sums(data@.subrange(0, i as int)),
        decreases data@.len() - i,
    {
        proof {
            let next = data@.subrange(0, i as int + 1);
            assert(next.drop_last() =~= data@.subrange(0, i as int));
            assert(next.last() == data@[i as int]);
        }
        sum1 = (sum1 + data[i] as u16) % 255;
        sum2 = (sum2 + sum1) % 255;
        i = i + 1;
    }
    proof {
        assert(data@.subrange(0, data@.len() as int) =~= data@);
        lemma_sums_bounded(data@);
    }
    sum2 * 256 + sum1
}

/// The fingerprint depends on the bytes alone: two buffers with the same
/// contents always get the same fingerprint.
pub proof fn lemma_fingerprint_deterministic(a: Seq<u8>, b: Seq<u8>)
    requires
        a == b,
    ensures
        fletcher16_spec(a) == fletcher16_spec(b),
{
}

} // verus!
