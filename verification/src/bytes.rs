//! Big-endian byte strings.

use vstd::prelude::*;

verus! {

/// The number that a byte string spells in base 256, most significant byte first.
pub open spec fn be_value(s: Seq<u8>) -> nat
    decreases s.len(),
{
    if s.len() == 0 {
        0
    } else {
        be_value(s.drop_last()) * 256 + s.last() as nat
    }
}

/// The `len` low base-256 digits of `n`, most significant first.
pub open spec fn be_bytes(n: nat, len: nat) -> Seq<u8>
    decreases len,
{
    if len == 0 {
        Seq::empty()
    } else {
        be_bytes(n / 256, (len - 1) as nat).push((n % 256) as u8)
    }
}

/// The number of values that `len` bytes can spell.
pub open spec fn capacity(len: nat) -> nat
    decreases len,
{
    if len == 0 {
        1
    } else {
        256 * capacity((len - 1) as nat)
    }
}

/// Writing a number in `len` bytes and reading it back gives the number, as long
/// as `len` bytes can hold it.
pub proof fn bytes_spell_value(n: nat, len: nat)
    requires
        n < capacity(len),
    ensures
        be_bytes(n, len).len() == len,
        be_value(be_bytes(n, len)) == n,
    decreases len,
{
    if len > 0 {
        bytes_spell_value(n / 256, (len - 1) as nat);
        assert(be_bytes(n, len).drop_last() =~= be_bytes(n / 256, (len - 1) as nat));
    }
}

/// Reading a byte string and writing the number in as many bytes gives the string.
pub proof fn value_spells_bytes(s: Seq<u8>)
    ensures
        be_bytes(be_value(s), s.len()) == s,
        be_value(s) < capacity(s.len()),
    decreases s.len(),
{
    if s.len() > 0 {
        value_spells_bytes(s.drop_last());
        assert(s =~= s.drop_last().push(s.last()));
    }
}

/// The digits of a number are those of its upper part, then those of its lower part.
pub(crate) proof fn bytes_concat(hi: nat, lo: nat, a: nat, b: nat)
    requires
        lo < capacity(b),
    ensures
        be_bytes(hi * capacity(b) + lo, a + b) == be_bytes(hi, a) + be_bytes(lo, b),
    decreases b,
{
    if b == 0 {
        assert(be_bytes(hi * 1 + 0, a) =~= be_bytes(hi, a) + Seq::<u8>::empty());
    } else {
        let c = capacity((b - 1) as nat);
        let n = hi * capacity(b) + lo;
        assert(hi * (256 * c) == 256 * (hi * c)) by (nonlinear_arith);
        assert(n / 256 == hi * c + lo / 256);
        assert(n % 256 == lo % 256);
        bytes_concat(hi, lo / 256, a, (b - 1) as nat);
        assert(be_bytes(n, a + b) =~= be_bytes(hi, a) + be_bytes(lo, b));
    }
}

/// The eight bytes of a 64-bit number, most significant first.
pub(crate) fn u64_to_be(n: u64) -> (b: [u8; 8])
    ensures
        b@ == be_bytes(n as nat, 8),
{
    let n6: u64 = n / 256;
    let n5: u64 = n6 / 256;
    let n4: u64 = n5 / 256;
    let n3: u64 = n4 / 256;
    let n2: u64 = n3 / 256;
    let n1: u64 = n2 / 256;
    let n0: u64 = n1 / 256;
    let b: [u8; 8] = [
        (n0 % 256) as u8,
        (n1 % 256) as u8,
        (n2 % 256) as u8,
        (n3 % 256) as u8,
        (n4 % 256) as u8,
        (n5 % 256) as u8,
        (n6 % 256) as u8,
        (n % 256) as u8,
    ];
    proof {
        reveal_with_fuel(be_bytes, 9);
        assert(b@ =~= be_bytes(n as nat, 8));
    }
    b
}

/// The number that the four bytes of `s` from `at` on spell, most significant first.
pub(crate) fn u32_from_be(s: &[u8], at: usize) -> (n: u32)
    requires
        at + 4 <= s@.len(),
    ensures
        n as nat == be_value(s@.subrange(at as int, at + 4)),
{
    let a: u32 = s[at] as u32;
    let b: u32 = s[at + 1] as u32;
    let c: u32 = s[at + 2] as u32;
    let d: u32 = s[at + 3] as u32;
    proof {
        reveal_with_fuel(be_value, 5);
        let w = s@.subrange(at as int, at + 4);
        assert(w.drop_last().drop_last().drop_last().drop_last().len() == 0);
    }
    ((a * 256 + b) * 256 + c) * 256 + d
}

/// The number that eight bytes spell, most significant first.
pub(crate) fn u64_from_be(s: &[u8; 8]) -> (n: u64)
    ensures
        n as nat == be_value(s@),
{
    let hi: u32 = u32_from_be(s.as_slice(), 0);
    let lo: u32 = u32_from_be(s.as_slice(), 4);
    proof {
        reveal_with_fuel(be_value, 9);
        let w = s@;
        let l = w.subrange(4, 8);
        assert(w.subrange(0, 4) =~= w.drop_last().drop_last().drop_last().drop_last());
        assert(l.drop_last().drop_last().drop_last().drop_last().len() == 0);
    }
    (hi as u64) * 0x1_0000_0000 + (lo as u64)
}

/// The 32 bytes of a vector that holds just so many.
pub(crate) fn array32(v: &Vec<u8>) -> (a: Option<[u8; 32]>)
    ensures
        match a {
            Some(bytes) => bytes@ == v@,
            None => v@.len() != 32,
        },
{
    if v.len() != 32 {
        return None;
    }
    let mut bytes: [u8; 32] = [0u8; 32];
    let mut i: usize = 0;
    while i < 32
        invariant
            i <= 32,
            v@.len() == 32,
            forall|j: int| 0 <= j < i ==> bytes@[j] == v@[j],
        decreases 32 - i,
    {
        bytes[i] = v[i];
        i = i + 1;
    }
    proof {
        assert(bytes@ =~= v@);
    }
    Some(bytes)
}

/// The eight bytes of a number are its digits to the base 256, the most significant one
/// first.
pub proof fn eight_bytes_of_a_number(n: u64)
    ensures
        be_bytes(n as nat, 8).len() == 8,
        be_bytes(n as nat, 8)[0] == n / 0x100_0000_0000_0000 % 256,
        be_bytes(n as nat, 8)[1] == n / 0x1_0000_0000_0000 % 256,
        be_bytes(n as nat, 8)[2] == n / 0x100_0000_0000 % 256,
        be_bytes(n as nat, 8)[3] == n / 0x1_0000_0000 % 256,
        be_bytes(n as nat, 8)[4] == n / 0x100_0000 % 256,
        be_bytes(n as nat, 8)[5] == n / 0x1_0000 % 256,
        be_bytes(n as nat, 8)[6] == n / 0x100 % 256,
        be_bytes(n as nat, 8)[7] == n % 256,
{
    reveal_with_fuel(be_bytes, 9);
}

/// The number that eight bytes spell counts each byte 256 times as much as the next one.
pub proof fn number_of_eight_bytes(s: Seq<u8>)
    requires
        s.len() == 8,
    ensures
        be_value(s) == 0x100_0000_0000_0000 * s[0] + 0x1_0000_0000_0000 * s[1] + 0x100_0000_0000
            * s[2] + 0x1_0000_0000 * s[3] + 0x100_0000 * s[4] + 0x1_0000 * s[5] + 0x100 * s[6]
            + s[7],
{
    reveal_with_fuel(be_value, 9);
}

/// The number that four bytes spell counts each byte 256 times as much as the next one.
pub proof fn number_of_four_bytes(s: Seq<u8>)
    requires
        s.len() == 4,
    ensures
        be_value(s) == 0x100_0000 * s[0] + 0x1_0000 * s[1] + 0x100 * s[2] + s[3],
{
    reveal_with_fuel(be_value, 5);
}

} // verus!
