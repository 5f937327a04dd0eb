//! Whole numbers of any size, as the canisters exchange them.

use crate::text::{decimal, decimal_is_plain, decimal_value, is_digit};
use vstd::prelude::*;
use vstd::utf8::{encode_utf8, is_ascii_chars, is_ascii_chars_encode_utf8};

verus! {

/// A natural number of any size, held as its digits to the base 2 to the 32, least
/// significant digit first. Its view is the number.
#[derive(Debug)]
pub struct Natural {
    pub digits: Vec<u32>,
}

/// An integer of any size: a magnitude, and whether it counts below zero. Its view is
/// the number.
#[derive(Debug)]
pub struct Integer {
    pub negative: bool,
    pub magnitude: Natural,
}

/// The number that digits to the base 2 to the 32 spell, least significant digit first.
pub open spec fn digits_value(digits: Seq<u32>) -> nat
    decreases digits.len(),
{
    if digits.len() == 0 {
        0
    } else {
        digits[0] as nat + 0x1_0000_0000 * digits_value(digits.drop_first())
    }
}

impl View for Natural {
    type V = nat;

    open spec fn view(&self) -> nat {
        digits_value(self.digits@)
    }
}

impl View for Integer {
    type V = int;

    open spec fn view(&self) -> int {
        if self.negative {
            -(self.magnitude@ as int)
        } else {
            self.magnitude@ as int
        }
    }
}

/// Calls `candid::Nat::from` for `u64`: the digits of a 64-bit number.
#[verifier::external_body]
fn digits_of_u64(n: u64) -> (digits: Vec<u32>)
    ensures
        digits_value(digits@) == n,
{
    candid::Nat::from(n).0.to_u32_digits()
}

/// Calls `+` of `candid::Nat`: the digits of the sum.
#[verifier::external_body]
fn digits_sum(a: &Vec<u32>, b: &Vec<u32>) -> (digits: Vec<u32>)
    ensures
        digits_value(digits@) == digits_value(a@) + digits_value(b@),
{
    let x = candid::Nat(num_bigint::BigUint::from_slice(a));
    let y = candid::Nat(num_bigint::BigUint::from_slice(b));
    (x + y).0.to_u32_digits()
}

/// Calls `*` of `candid::Nat`: the digits of the product.
#[verifier::external_body]
fn digits_product(a: &Vec<u32>, b: &Vec<u32>) -> (digits: Vec<u32>)
    ensures
        digits_value(digits@) == digits_value(a@) * digits_value(b@),
{
    let x = candid::Nat(num_bigint::BigUint::from_slice(a));
    let y = candid::Nat(num_bigint::BigUint::from_slice(b));
    (x * y).0.to_u32_digits()
}

/// Calls `<` of `candid::Nat`: whether the first number is the smaller one.
#[verifier::external_body]
fn digits_less(a: &Vec<u32>, b: &Vec<u32>) -> (less: bool)
    ensures
        less == (digits_value(a@) < digits_value(b@)),
{
    candid::Nat(num_bigint::BigUint::from_slice(a)) < candid::Nat(num_bigint::BigUint::from_slice(b))
}

/// Calls `u64::try_from` on the `BigUint` inside a `candid::Nat`: the number, if 64
/// bits can hold it.
#[verifier::external_body]
fn digits_to_u64(a: &Vec<u32>) -> (n: Option<u64>)
    ensures
        n == (if digits_value(a@) <= u64::MAX {
            Some(digits_value(a@) as u64)
        } else {
            None
        }),
{
    u64::try_from(candid::Nat(num_bigint::BigUint::from_slice(a)).0).ok()
}

/// Calls `to_str_radix` with radix 10 on the `BigUint` inside a `candid::Nat`: the
/// number in decimal, without separators or leading zeros.
#[verifier::external_body]
fn digits_to_decimal(a: &Vec<u32>) -> (text: String)
    ensures
        text@ == decimal(digits_value(a@)),
{
    candid::Nat(num_bigint::BigUint::from_slice(a)).0.to_str_radix(10)
}

/// Calls `candid::Nat::parse`: the number that decimal digits spell, with an optional
/// plus sign in front and underscores anywhere behind the first digit; on any
/// other bytes, the text of the error.
#[verifier::external_body]
fn digits_from_decimal(bytes: &[u8]) -> (result: Result<Vec<u32>, String>)
    ensures
        match result {
            Ok(digits) => parse_decimal(bytes@) == Some(digits_value(digits@)),
            Err(e) => parse_decimal(bytes@) is None && e@ == "Cannot parse BigUint"@,
        },
{
    candid::Nat::parse(bytes).map(|n| n.0.to_u32_digits()).map_err(|e| e.to_string())
}

/// The number that decimal digits spell, underscores left out.
pub open spec fn read_digits(s: Seq<u8>) -> nat
    decreases s.len(),
{
    if s.len() == 0 {
        0
    } else if s.last() == 95 {
        read_digits(s.drop_last())
    } else {
        read_digits(s.drop_last()) * 10 + (s.last() - 48) as nat
    }
}

/// Whether a text is a row of decimal digits, with underscores anywhere behind the
/// first one.
pub open spec fn is_digit_row(s: Seq<u8>) -> bool {
    &&& s.len() > 0
    &&& s[0] != 95
    &&& forall|i: int| 0 <= i < s.len() ==> 48 <= #[trigger] s[i] <= 57 || s[i] == 95
}

/// The number that a decimal text spells: a row of digits, with an optional plus sign
/// in front.
pub open spec fn parse_decimal(s: Seq<u8>) -> Option<nat> {
    if s.len() > 0 && s[0] == 43 {
        if is_digit_row(s.drop_first()) {
            Some(read_digits(s.drop_first()))
        } else {
            None
        }
    } else if is_digit_row(s) {
        Some(read_digits(s))
    } else {
        None
    }
}

impl Natural {
    /// The number zero.
    pub fn zero() -> (n: Natural)
        ensures
            n@ == 0,
    {
        Natural { digits: Vec::new() }
    }

    /// A 64-bit number.
    pub fn from_u64(n: u64) -> (r: Natural)
        ensures
            r@ == n,
    {
        Natural { digits: digits_of_u64(n) }
    }

    /// The sum of two numbers.
    pub fn plus(&self, other: &Natural) -> (r: Natural)
        ensures
            r@ == self@ + other@,
    {
        Natural { digits: digits_sum(&self.digits, &other.digits) }
    }

    /// The product of two numbers.
    pub fn times(&self, other: &Natural) -> (r: Natural)
        ensures
            r@ == self@ * other@,
    {
        Natural { digits: digits_product(&self.digits, &other.digits) }
    }

    /// Whether this number is smaller than `other`.
    pub fn less_than(&self, other: &Natural) -> (less: bool)
        ensures
            less == (self@ < other@),
    {
        digits_less(&self.digits, &other.digits)
    }

    /// The number, if 64 bits can hold it.
    pub fn to_u64(&self) -> (n: Option<u64>)
        ensures
            n == (if self@ <= u64::MAX {
                Some(self@ as u64)
            } else {
                None
            }),
    {
        digits_to_u64(&self.digits)
    }

    /// The number, if 32 bits can hold it.
    pub fn to_u32(&self) -> (n: Option<u32>)
        ensures
            n == (if self@ <= u32::MAX {
                Some(self@ as u32)
            } else {
                None
            }),
    {
        match self.to_u64() {
            Some(n) => if n <= 0xffff_ffff {
                Some(n as u32)
            } else {
                None
            },
            None => None,
        }
    }

    /// The number, if a signed number of 64 bits can hold it.
    pub fn to_i64(&self) -> (n: Option<i64>)
        ensures
            n == (if self@ <= i64::MAX {
                Some(self@ as i64)
            } else {
                None
            }),
    {
        match self.to_u64() {
            Some(n) => if n <= 0x7fff_ffff_ffff_ffff {
                Some(n as i64)
            } else {
                None
            },
            None => None,
        }
    }

    /// The number in decimal, without separators.
    pub fn to_decimal(&self) -> (text: String)
        ensures
            text@ == decimal(self@),
    {
        digits_to_decimal(&self.digits)
    }

    /// Reads a decimal number.
    pub fn parse(bytes: &[u8]) -> (result: Result<Natural, String>)
        ensures
            match result {
                Ok(n) => parse_decimal(bytes@) == Some(n@),
                Err(e) => parse_decimal(bytes@) is None && e@ == "Cannot parse BigUint"@,
            },
    {
        match digits_from_decimal(bytes) {
            Ok(digits) => Ok(Natural { digits }),
            Err(e) => Err(e),
        }
    }
}

impl Clone for Natural {
    fn clone(&self) -> (r: Natural)
        ensures
            r.digits@ == self.digits@,
            r@ == self@,
    {
        let digits = self.digits.clone();
        proof {
            assert(digits@ =~= self.digits@);
        }
        Natural { digits }
    }
}

impl Integer {
    /// The number, if a signed number of 64 bits can hold it.
    pub fn to_i64(&self) -> (n: Option<i64>)
        ensures
            n == (if i64::MIN <= self@ <= i64::MAX {
                Some(self@ as i64)
            } else {
                None
            }),
    {
        match self.magnitude.to_u64() {
            Some(m) => if !self.negative {
                if m <= 0x7fff_ffff_ffff_ffff {
                    Some(m as i64)
                } else {
                    None
                }
            } else if m == 0 {
                Some(0)
            } else if m <= 0x8000_0000_0000_0000 {
                let below: i64 = (m - 1) as i64;
                Some(-1 - below)
            } else {
                None
            },
            None => None,
        }
    }
}

/// Digits read as bytes spell what they spell as characters.
proof fn read_ascii_digits(s: Seq<char>, b: Seq<u8>)
    requires
        s.len() == b.len(),
        forall|i: int| 0 <= i < s.len() ==> is_digit(#[trigger] s[i]) && b[i] == s[i] as u8,
    ensures
        read_digits(b) == decimal_value(s),
    decreases s.len(),
{
    if s.len() > 0 {
        assert(is_digit(s[s.len() - 1]));
        assert forall|i: int| 0 <= i < s.len() - 1 implies is_digit(#[trigger] s.drop_last()[i])
            && b.drop_last()[i] == s.drop_last()[i] as u8 by {
            assert(is_digit(s[i]));
        }
        read_ascii_digits(s.drop_last(), b.drop_last());
    }
}

/// Decimal text is read back as the number that it was made from.
pub proof fn decimal_is_read_back(n: nat)
    ensures
        parse_decimal(encode_utf8(decimal(n))) == Some(n),
{
    let s = decimal(n);
    decimal_is_plain(n);
    assert(is_ascii_chars(s)) by {
        assert forall|i: int| 0 <= i < s.len() implies 0 <= (#[trigger] s[i]) as nat <= 127 by {
            assert(is_digit(s[i]));
        }
    }
    is_ascii_chars_encode_utf8(s);
    let b = encode_utf8(s);
    assert forall|i: int| 0 <= i < s.len() implies is_digit(#[trigger] s[i]) && b[i] == s[i] as u8
        && 48 <= b[i] <= 57 by {
    }
    read_ascii_digits(s, b);
    assert(is_digit(s[0]));
}

/// An integer is its magnitude, counted below zero where it says so.
pub proof fn integers_have_a_sign(n: Integer)
    ensures
        n.negative ==> n@ + n.magnitude@ == 0,
        !n.negative ==> n@ == n.magnitude@,
{
}

/// Each digit to the base 2 to the 32 counts as much as that many of the digit before it.
pub proof fn digits_count(digits: Seq<u32>, d: u32)
    ensures
        digits_value(Seq::<u32>::empty()) == 0,
        digits_value(seq![d] + digits) == d + 0x1_0000_0000 * digits_value(digits),
{
    assert((seq![d] + digits).drop_first() =~= digits);
}

} // verus!
