//! How hard a hash is: the zero bits that it starts with.

use vstd::prelude::*;

verus! {

/// Bit `k` of a byte string, counted from the most significant bit of the first byte.
pub open spec fn bit_at(s: Seq<u8>, k: int) -> bool {
    (s[k / 8] >> ((7 - k % 8) as u8)) & 1u8 != 0u8
}

/// The number of zero bits that follow each other from bit `k` on.
pub open spec fn zeros_from(s: Seq<u8>, k: int) -> nat
    decreases 8 * s.len() - k,
{
    if 0 <= k < 8 * s.len() && !bit_at(s, k) {
        1 + zeros_from(s, k + 1)
    } else {
        0
    }
}

/// The number of zero bits that a byte string starts with.
pub open spec fn leading_zeros(s: Seq<u8>) -> nat {
    zeros_from(s, 0)
}

/// A stretch of zero bits can be counted apart from what follows it.
proof fn zeros_split(s: Seq<u8>, from: int, to: int)
    requires
        0 <= from <= to <= 8 * s.len(),
        forall|k: int| from <= k < to ==> !bit_at(s, k),
    ensures
        zeros_from(s, from) == (to - from) + zeros_from(s, to),
    decreases to - from,
{
    if from < to {
        assert(!bit_at(s, from));
        zeros_split(s, from + 1, to);
    }
}

/// The count that starts at bit `k` covers zero bits only, and stops at the first
/// bit that is set or at the end of the string.
proof fn zeros_end(s: Seq<u8>, k: int)
    requires
        0 <= k <= 8 * s.len(),
    ensures
        k + zeros_from(s, k) <= 8 * s.len(),
        forall|j: int| k <= j < k + zeros_from(s, k) ==> !bit_at(s, j),
        k + zeros_from(s, k) < 8 * s.len() ==> bit_at(s, k + zeros_from(s, k)),
    decreases 8 * s.len() - k,
{
    if k < 8 * s.len() && !bit_at(s, k) {
        zeros_end(s, k + 1);
    }
}

/// `leading_zeros` is the one number `n` for which the first `n` bits are zero and
/// bit `n`, if there is one, is set.
pub proof fn leading_zeros_is_first_set_bit(s: Seq<u8>, n: nat)
    ensures
        leading_zeros(s) == n <==> {
            &&& n <= 8 * s.len()
            &&& forall|k: int| 0 <= k < n ==> !bit_at(s, k)
            &&& n < 8 * s.len() ==> bit_at(s, n as int)
        },
{
    zeros_end(s, 0);
    let m = leading_zeros(s) as int;
    if n < m {
        assert(!bit_at(s, n as int));
    }
    if m < n && n <= 8 * s.len() {
        assert(bit_at(s, m));
    }
}

/// A hash of `len` bytes never has more than `8 * len` leading zero bits.
pub proof fn leading_zeros_bound(s: Seq<u8>)
    ensures
        leading_zeros(s) <= 8 * s.len(),
{
    zeros_end(s, 0);
}

/// The bits of one byte that start a count.
proof fn byte_zeros(s: Seq<u8>, i: int)
    requires
        0 <= i < s.len(),
    ensures
        s[i] == 0 ==> forall|k: int| 8 * i <= k < 8 * i + 8 ==> !bit_at(s, k),
        s[i] != 0 ==> zeros_from(s, 8 * i) == vstd::std_specs::bits::u8_leading_zeros(s[i]),
{
    let b = s[i];
    vstd::std_specs::bits::axiom_u8_leading_zeros(b);
    let z = vstd::std_specs::bits::u8_leading_zeros(b);
    if b == 0 {
        assert forall|k: int| 8 * i <= k < 8 * i + 8 implies !bit_at(s, k) by {
            assert(k / 8 == i);
            let j = (7 - k % 8) as u8;
            assert(j < 8u8 ==> (0u8 >> j) & 1u8 == 0u8) by (bit_vector);
        }
    } else {
        assert forall|k: int| 8 * i <= k < 8 * i + z implies !bit_at(s, k) by {
            assert(k / 8 == i);
            let j = (7 - k % 8) as u8;
            assert(8 - z <= j < 8);
            assert((b >> j) & 1u8 == 0u8);
        }
        zeros_split(s, 8 * i, 8 * i + z);
        let k = 8 * i + z;
        assert(k / 8 == i);
        assert((7 - k % 8) as u8 == (7 - z) as u8);
        assert(bit_at(s, k));
    }
}

/// The number of zero bits that `hash` starts with.
pub fn leading_zero_bits(hash: &[u8]) -> (count: u32)
    requires
        leading_zeros(hash@) <= u32::MAX,
    ensures
        count as nat == leading_zeros(hash@),
{
    let mut count: u32 = 0;
    let mut i: usize = 0;
    while i < hash.len()
        invariant
            i <= hash@.len(),
            count as int == 8 * i,
            leading_zeros(hash@) == count + zeros_from(hash@, 8 * i),
            leading_zeros(hash@) <= u32::MAX,
        decreases hash@.len() - i,
    {
        let byte: u8 = hash[i];
        proof {
            byte_zeros(hash@, i as int);
        }
        if byte != 0 {
            return count + byte.leading_zeros();
        }
        proof {
            zeros_split(hash@, 8 * i, 8 * i + 8);
        }
        count = count + 8;
        i = i + 1;
    }
    count
}

/// A hash starts with `n` zero bits exactly if its first `n` bits are zero, each byte
/// read from its most significant bit on.
pub proof fn starts_with_zero_bits(s: Seq<u8>, n: nat)
    ensures
        leading_zeros(s) >= n <==> n <= 8 * s.len() && forall|k: int|
            0 <= k < n ==> (#[trigger] (s[k / 8] >> ((7 - k % 8) as u8))) & 1u8 == 0u8,
{
    zeros_end(s, 0);
    let m = leading_zeros(s) as int;
    if m >= n {
        assert forall|k: int| 0 <= k < n implies (#[trigger] (s[k / 8] >> ((7 - k % 8) as u8)))
            & 1u8 == 0u8 by {
            assert(!bit_at(s, k));
        }
    } else if n <= 8 * s.len() {
        assert(bit_at(s, m));
        assert((s[m / 8] >> ((7 - m % 8) as u8)) & 1u8 != 0u8);
    }
}

} // verus!
