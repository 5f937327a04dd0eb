//! Amounts of tokens: how they are shown, what mining costs, and what is sent.

use crate::agent::{
    call_on, refused, transfer_arg, Call, CallArgs, ICP_LEDGER_CANISTER_ID, PIKO_LEDGER_CANISTER_ID,
};
use crate::natural::{parse_decimal, Natural};
use crate::principal::{principal_of_text, reads_as, Principal};
use crate::text::{
    decimal, decimal_is_plain, decimal_value, digit_char, is_digit, join2, join3, same_text, trim,
    trimmed,
};
use vstd::prelude::*;
use vstd::string::*;
use vstd::utf8::encode_utf8;

verus! {

/// What the ICP ledger takes for moving tokens, in units of 10 to the -8 ICP.
pub const ICP_LEDGER_FEE_E8S: u64 = 10_000;

/// A number as plain decimal digits, without the separators that a reader outside
/// this program could not make sense of.
pub fn nat_to_plain_string(n: &Natural) -> (s: String)
    ensures
        s@ == decimal(n@),
{
    n.to_decimal()
}

/// The last `k` decimal digits of `n`, leading zeros included.
pub open spec fn low_digits(n: nat, k: nat) -> Seq<char>
    decreases k,
{
    if k == 0 {
        Seq::empty()
    } else {
        low_digits(n / 10, (k - 1) as nat).push(digit_char(n % 10))
    }
}

/// A text without the zeros at its end.
pub open spec fn drop_zeros(s: Seq<char>) -> Seq<char>
    decreases s.len(),
{
    if s.len() > 0 && s.last() == '0' {
        drop_zeros(s.drop_last())
    } else {
        s
    }
}

/// An amount in units of 10 to the -8 as a decimal fraction: the whole tokens, then, if
/// there is a fraction, a point and its decimals without the zeros at their end.
pub open spec fn token_text(e8s: nat) -> Seq<char> {
    let whole = decimal(e8s / 100_000_000);
    let fraction = drop_zeros(low_digits(e8s, 8));
    if fraction.len() == 0 {
        whole
    } else {
        whole + seq!['.'] + fraction
    }
}

/// `k` times the digit zero.
spec fn zeros(k: nat) -> Seq<char> {
    Seq::new(k, |i: int| '0')
}

/// The power of ten with exponent `k`.
spec fn pow10(k: nat) -> nat
    decreases k,
{
    if k == 0 {
        1
    } else {
        10 * pow10((k - 1) as nat)
    }
}

/// Decimal text, filled up with zeros at the left to at least `k` digits.
spec fn padded(n: nat, k: nat) -> Seq<char> {
    let s = decimal(n);
    if s.len() < k {
        zeros((k - s.len()) as nat) + s
    } else {
        s
    }
}

/// Filled up to `k + 1` digits, a number ends in its last `k` digits, and what stands
/// before them is the number divided by 10 to the `k`.
proof fn padded_splits(n: nat, k: nat)
    ensures
        pow10(k) > 0,
        padded(n, k + 1) == decimal(n / pow10(k)) + low_digits(n, k),
        low_digits(n, k).len() == k,
    decreases k,
{
    decimal_is_plain(n);
    if k == 0 {
        assert(padded(n, 1) =~= decimal(n) + Seq::<char>::empty());
    } else {
        let j = (k - 1) as nat;
        padded_splits(n / 10, j);
        vstd::arithmetic::div_mod::lemma_div_denominator(n as int, 10, pow10(j) as int);
        let d = digit_char(n % 10);
        assert(padded(n, k + 1) =~= padded(n / 10, k).push(d)) by {
            decimal_is_plain(n / 10);
            if n < 10 {
                assert(decimal(0) =~= seq!['0']);
                assert(padded(0, k) =~= zeros(k));
            }
        }
        assert(padded(n / 10, k).push(d) =~= decimal(n / pow10(k)) + low_digits(n, k));
    }
}

/// Shows an amount in units of 10 to the -8 as a decimal fraction.
pub fn format_piko(e8s: &Natural) -> (s: String)
    ensures
        s@ == token_text(e8s@),
{
    let raw = e8s.to_decimal();
    let ghost n = e8s@;
    let digits: usize = raw.as_str().unicode_len();
    let mut text = String::new();
    let mut filled: usize = digits;
    while filled < 9
        invariant
            digits <= filled,
            filled <= 9 || filled == digits,
            text@ == zeros((filled - digits) as nat),
        decreases 9 - filled,
    {
        text.append("0");
        filled = filled + 1;
        proof {
            reveal_strlit("0");
            assert(text@ =~= zeros((filled - digits) as nat));
        }
    }
    text.append(raw.as_str());
    proof {
        padded_splits(n, 8);
        reveal_with_fuel(pow10, 9);
        assert(pow10(8) == 100_000_000);
        assert(text@ =~= padded(n, 9));
    }
    let whole = text.as_str().substring_char(0, filled - 8);
    let fraction = text.as_str().substring_char(filled - 8, filled);
    proof {
        assert(whole@ =~= decimal(n / 100_000_000));
        assert(fraction@ =~= low_digits(n, 8));
        assert(fraction@.take(8) =~= fraction@);
    }
    let mut kept: usize = 8;
    while kept > 0 && fraction.get_char(kept - 1) == '0'
        invariant
            kept <= 8,
            fraction@.len() == 8,
            drop_zeros(fraction@) == drop_zeros(fraction@.take(kept as int)),
        decreases kept,
    {
        proof {
            assert(fraction@.take(kept as int).drop_last() =~= fraction@.take(kept - 1));
        }
        kept = kept - 1;
    }
    if kept == 0 {
        String::from_str(whole)
    } else {
        proof {
            reveal_strlit(".");
            assert("."@ =~= seq!['.']);
            assert(fraction@.take(kept as int) =~= fraction@.subrange(0, kept as int));
        }
        join3(whole, ".", fraction.substring_char(0, kept))
    }
}

/// What is left of a text and the zeros cut off make up the text, and no zero is left
/// at the end.
proof fn drop_zeros_keeps(s: Seq<char>)
    ensures
        drop_zeros(s).len() <= s.len(),
        drop_zeros(s) + zeros((s.len() - drop_zeros(s).len()) as nat) == s,
        drop_zeros(s).len() > 0 ==> drop_zeros(s).last() != '0',
    decreases s.len(),
{
    if s.len() > 0 && s.last() == '0' {
        drop_zeros_keeps(s.drop_last());
        let t = drop_zeros(s.drop_last());
        assert(t + zeros((s.len() - t.len()) as nat) =~= (t + zeros(
            (s.len() - 1 - t.len()) as nat,
        )).push('0'));
        assert(s =~= s.drop_last().push('0'));
    } else {
        assert(s + zeros(0) =~= s);
    }
}

/// The last `k` digits are digits, and spell the remainder by 10 to the `k`.
proof fn low_digits_are_digits(n: nat, k: nat)
    ensures
        low_digits(n, k).len() == k,
        forall|i: int| 0 <= i < k ==> is_digit(#[trigger] low_digits(n, k)[i]),
        pow10(k) > 0,
        n == pow10(k) * (n / pow10(k)) + decimal_value(low_digits(n, k)),
    decreases k,
{
    if k > 0 {
        let j = (k - 1) as nat;
        low_digits_are_digits(n / 10, j);
        let front = low_digits(n / 10, j);
        assert(low_digits(n, k).drop_last() =~= front);
        vstd::arithmetic::div_mod::lemma_div_denominator(n as int, 10, pow10(j) as int);
        let (p, q) = (pow10(j), n / pow10(k));
        assert(n / 10 == p * q + decimal_value(front));
        assert(decimal_value(low_digits(n, k)) == decimal_value(front) * 10 + n % 10);
        assert(10 * (p * q) == (10 * p) * q) by (nonlinear_arith);
        assert(pow10(k) * q == (10 * p) * q);
    } else {
        let one = pow10(k);
        assert(one * (n / one) == n) by (nonlinear_arith)
            requires
                one == 1,
        ;
    }
}

/// The shown amount is the amount: the digits before the point count whole tokens, and
/// the decimals, filled up to eight with zeros, count the units that are left.
pub proof fn token_text_is_exact(e8s: nat)
    ensures
        100_000_000 * decimal_value(decimal(e8s / 100_000_000)) + decimal_value(low_digits(e8s, 8))
            == e8s,
        low_digits(e8s, 8).len() == 8,
        token_text(e8s).len() > 0,
        is_digit(token_text(e8s)[0]),
        token_text(e8s).contains('.') ==> token_text(e8s).last() != '0',
        token_text(e8s).contains('.') <==> e8s % 100_000_000 != 0,
{
    let t = token_text(e8s);
    let whole = decimal(e8s / 100_000_000);
    let digits = low_digits(e8s, 8);
    let fraction = drop_zeros(digits);
    decimal_is_plain(e8s / 100_000_000);
    low_digits_are_digits(e8s, 8);
    reveal_with_fuel(pow10, 9);
    assert(pow10(8) == 100_000_000);
    drop_zeros_keeps(digits);
    if fraction.len() > 0 {
        assert(t[whole.len() as int] == '.');
        assert(t.last() == fraction.last());
        if e8s % 100_000_000 == 0 {
            zero_digits(e8s, 8);
            assert(digits[fraction.len() - 1] == fraction.last());
        }
    } else {
        assert(forall|i: int| 0 <= i < t.len() ==> is_digit(#[trigger] t[i]));
        assert(digits =~= zeros(8));
        zeros_spell_nothing(8);
    }
}

/// The last digits of a multiple of 10 to the `k` are zeros.
proof fn zero_digits(n: nat, k: nat)
    requires
        n % pow10(k) == 0,
    ensures
        low_digits(n, k) == zeros(k),
    decreases k,
{
    if k > 0 {
        let j = (k - 1) as nat;
        let m = pow10(j);
        low_digits_are_digits(0, j);
        vstd::arithmetic::div_mod::lemma_fundamental_div_mod(n as int, (10 * m) as int);
        let q = n / (10 * m);
        assert(n == 10 * (m * q)) by (nonlinear_arith)
            requires
                n == (10 * m) * q,
        ;
        assert(n / 10 == m * q && n % 10 == 0);
        vstd::arithmetic::div_mod::lemma_mod_multiples_basic(q as int, m as int);
        assert(m * q == q * m) by (nonlinear_arith);
        zero_digits(n / 10, j);
        assert(low_digits(n, k) =~= zeros(k));
    } else {
        assert(low_digits(n, k) =~= zeros(k));
    }
}

/// A row of zeros spells zero.
proof fn zeros_spell_nothing(k: nat)
    ensures
        decimal_value(zeros(k)) == 0,
    decreases k,
{
    if k > 0 {
        zeros_spell_nothing((k - 1) as nat);
        assert(zeros(k).drop_last() =~= zeros((k - 1) as nat));
    }
}

/// Two amounts that are shown alike are the same amount.
pub proof fn token_text_tells_amounts_apart(a: nat, b: nat)
    requires
        token_text(a) == token_text(b),
    ensures
        a == b,
{
    let t = token_text(a);
    let (wa, wb) = (decimal(a / 100_000_000), decimal(b / 100_000_000));
    let (da, db) = (low_digits(a, 8), low_digits(b, 8));
    token_text_is_exact(a);
    token_text_is_exact(b);
    decimal_is_plain(a / 100_000_000);
    decimal_is_plain(b / 100_000_000);
    drop_zeros_keeps(da);
    drop_zeros_keeps(db);
    let (fa, fb) = (drop_zeros(da), drop_zeros(db));
    if fa.len() > 0 {
        assert(t[wa.len() as int] == '.');
    }
    if fb.len() > 0 {
        assert(t[wb.len() as int] == '.');
    }
    if fa.len() == 0 || fb.len() == 0 {
        assert(forall|i: int| 0 <= i < wa.len() ==> is_digit(#[trigger] wa[i]));
        assert(forall|i: int| 0 <= i < wb.len() ==> is_digit(#[trigger] wb[i]));
        assert(fa.len() == 0 && fb.len() == 0);
        assert(wa == wb);
    } else {
        if wa.len() < wb.len() {
            assert(is_digit(wb[wa.len() as int]));
            assert(t[wa.len() as int] == wb[wa.len() as int]);
        }
        if wb.len() < wa.len() {
            assert(is_digit(wa[wb.len() as int]));
            assert(t[wb.len() as int] == wa[wb.len() as int]);
        }
        assert(wa =~= t.take(wa.len() as int));
        assert(wb =~= t.take(wb.len() as int));
        assert(fa =~= t.skip((wa.len() + 1) as int));
        assert(fb =~= t.skip((wb.len() + 1) as int));
    }
}

/// What one submission costs: the mining fee and the ledger's own fee.
pub open spec fn block_cost(fee: nat) -> nat {
    fee + ICP_LEDGER_FEE_E8S as nat
}

/// What one submission costs.
pub fn cost_per_block(fee: &Natural) -> (cost: Natural)
    ensures
        cost@ == block_cost(fee@),
{
    fee.plus(&Natural::from_u64(ICP_LEDGER_FEE_E8S))
}

/// What is approved for `blocks` submissions, at least for one.
pub open spec fn approval(fee: nat, blocks: u32) -> nat {
    block_cost(fee) * (if blocks < 1 {
        1
    } else {
        blocks as nat
    })
}

/// The amount to approve for `blocks` submissions at the present fee.
pub fn approval_amount(fee: &Natural, blocks: u32) -> (amount: Natural)
    ensures
        amount@ == approval(fee@, blocks),
{
    let count: u64 = if blocks < 1 {
        1
    } else {
        blocks as u64
    };
    cost_per_block(fee).times(&Natural::from_u64(count))
}

/// Whether a submission can be paid for.
pub open spec fn affordable(allowance: nat, balance: nat, fee: nat) -> bool {
    allowance >= block_cost(fee) && balance >= block_cost(fee)
}

/// Tells whether a submission can be paid for.
pub fn can_afford(allowance: &Natural, balance: &Natural, fee: &Natural) -> (enough: bool)
    ensures
        enough == affordable(allowance@, balance@, fee@),
{
    let cost = cost_per_block(fee);
    !(allowance.less_than(&cost) || balance.less_than(&cost))
}

/// An approval covers all the submissions that it is for, so that mining is not
/// refused for want of allowance before that many are paid for.
pub proof fn approval_covers_blocks(fee: nat, blocks: u32, paid: nat)
    requires
        paid < blocks || paid == 0,
    ensures
        approval(fee, blocks) >= blocks * block_cost(fee),
        approval(fee, blocks) - paid * block_cost(fee) >= block_cost(fee),
{
    let c = block_cost(fee);
    let n: nat = if blocks < 1 {
        1
    } else {
        blocks as nat
    };
    assert(c * n >= blocks * c) by (nonlinear_arith)
        requires
            n >= blocks,
            c >= 0,
    ;
    assert(c * n - paid * c >= c) by (nonlinear_arith)
        requires
            n >= paid + 1,
            c >= 0,
    ;
}

/// The ledger that holds a token.
pub open spec fn ledger_of(token: Seq<char>) -> Option<Seq<char>> {
    if token == "PIKO"@ {
        Some(PIKO_LEDGER_CANISTER_ID@)
    } else if token == "ICP"@ {
        Some(ICP_LEDGER_CANISTER_ID@)
    } else {
        None
    }
}

/// The id of the ledger that holds a token.
pub fn ledger_id(token: &str) -> (id: Option<&'static str>)
    ensures
        match id {
            Some(text) => ledger_of(token@) == Some(text@),
            None => ledger_of(token@) is None,
        },
{
    if same_text(token, "PIKO") {
        Some(PIKO_LEDGER_CANISTER_ID)
    } else if same_text(token, "ICP") {
        Some(ICP_LEDGER_CANISTER_ID)
    } else {
        None
    }
}

/// A transfer, once the recipient, the amount and the ledger have been read. The
/// recipient is looked at before the amount, and the amount before the ledger.
pub fn decide_send(
    recipient: Result<Principal, String>,
    amount: Result<Natural, String>,
    ledger: Result<Principal, String>,
) -> (call: Result<Call, String>)
    ensures
        match (recipient, amount, ledger) {
            (Err(why), _, _) => call matches Err(e) && e@ == "invalid recipient: "@ + why@,
            (Ok(_), Err(why), _) => call matches Err(e) && e@ == "invalid amount: "@ + why@,
            (Ok(_), Ok(_), Err(why)) => call == Err::<Call, String>(why),
            (Ok(to), Ok(n), Ok(canister)) => call matches Ok(c) && c.canister == canister
                && c.method@ == "icrc1_transfer"@ && c.update
                && (c.args matches CallArgs::Transfer(a) && a.moves(to@, n@)),
        },
{
    match recipient {
        Err(why) => Err(join2("invalid recipient: ", why.as_str())),
        Ok(to) => match amount {
            Err(why) => Err(join2("invalid amount: ", why.as_str())),
            Ok(n) => call_on(ledger, "icrc1_transfer", true, CallArgs::Transfer(transfer_arg(to, n))),
        },
    }
}

/// Why a transfer cannot be sent, if it cannot.
pub open spec fn send_refusal(token: Seq<char>, to: Seq<char>, amount: Seq<char>) -> Option<
    Seq<char>,
> {
    match ledger_of(token) {
        None => Some("unknown token: "@ + token),
        Some(ledger) => match principal_of_text(trimmed(to)) {
            Err(why) => Some("invalid recipient: "@ + why),
            Ok(_) => if parse_decimal(encode_utf8(trimmed(amount))) is None {
                Some("invalid amount: "@ + "Cannot parse BigUint"@)
            } else {
                match principal_of_text(ledger) {
                    Err(why) => Some(why),
                    Ok(_) => None,
                }
            },
        },
    }
}

/// Whether `c` sends `amount` of `token` to `to`.
pub open spec fn sends(c: Call, token: Seq<char>, to: Seq<char>, amount: Seq<char>) -> bool {
    &&& ledger_of(token) matches Some(ledger) && c.goes_to(ledger, "icrc1_transfer"@, true)
    &&& c.args matches CallArgs::Transfer(a) && reads_as(trimmed(to), a.to.owner@)
        && parse_decimal(encode_utf8(trimmed(amount))) == Some(a.amount@) && a.moves(
        a.to.owner@,
        a.amount@,
    )
}

/// The call that sends `amount` units of `token` to `to`, or what is shown if that
/// cannot be done. White space around the recipient and the amount does not count.
pub fn send_token(token: &str, to: &str, amount: &str) -> (call: Result<Call, String>)
    ensures
        match call {
            Ok(c) => send_refusal(token@, to@, amount@) is None && sends(c, token@, to@, amount@),
            Err(e) => send_refusal(token@, to@, amount@) == Some(e@),
        },
{
    match ledger_id(token) {
        None => Err(join2("unknown token: ", token)),
        Some(ledger) => decide_send(
            Principal::from_text(trim(to)),
            Natural::parse(trim(amount).as_bytes()),
            Principal::from_text(ledger),
        ),
    }
}

/// The digits of a text, followed by zeros, spell ten times as much for each of them.
proof fn zeros_behind_digits(s: Seq<char>, k: nat)
    ensures
        decimal_value(s + zeros(k)) == decimal_value(s) * vstd::arithmetic::power::pow(10, k),
    decreases k,
{
    vstd::arithmetic::power::lemma_pow0(10);
    if k > 0 {
        let j = (k - 1) as nat;
        zeros_behind_digits(s, j);
        assert((s + zeros(k)).drop_last() =~= s + zeros(j));
        assert((s + zeros(k)).last() == '0');
        vstd::arithmetic::power::lemma_pow1(10);
        vstd::arithmetic::power::lemma_pow_adds(10, j, 1);
        let (v, p) = (decimal_value(s) as int, vstd::arithmetic::power::pow(10, j));
        assert(v * p * 10 == v * (p * 10)) by (nonlinear_arith);
    } else {
        assert(s + zeros(0) =~= s);
        assert(decimal_value(s) * 1 == decimal_value(s));
    }
}

/// The shown amount can be read back: digits without a leading zero that count whole
/// tokens and, if the amount is not a whole number of tokens, a point and up to eight
/// decimals of which the last is not zero, that count the rest.
pub proof fn token_text_reads_back(e8s: nat) -> (parts: (Seq<char>, Seq<char>))
    ensures
        ({
            let (whole, fraction) = parts;
            &&& token_text(e8s) == (if fraction.len() == 0 {
                whole
            } else {
                whole + seq!['.'] + fraction
            })
            &&& whole.len() > 0
            &&& whole[0] == '0' ==> whole.len() == 1
            &&& forall|i: int| 0 <= i < whole.len() ==> '0' <= #[trigger] whole[i] <= '9'
            &&& fraction.len() <= 8
            &&& fraction.len() > 0 ==> fraction.last() != '0'
            &&& forall|i: int| 0 <= i < fraction.len() ==> '0' <= #[trigger] fraction[i] <= '9'
            &&& 100_000_000 * decimal_value(whole) + decimal_value(fraction)
                * vstd::arithmetic::power::pow(10, (8 - fraction.len()) as nat) == e8s
        }),
{
    let whole = decimal(e8s / 100_000_000);
    let digits = low_digits(e8s, 8);
    let fraction = drop_zeros(digits);
    decimal_is_plain(e8s / 100_000_000);
    token_text_is_exact(e8s);
    low_digits_are_digits(e8s, 8);
    drop_zeros_keeps(digits);
    let cut = (8 - fraction.len()) as nat;
    zeros_behind_digits(fraction, cut);
    assert(fraction + zeros(cut) == digits);
    assert forall|i: int| 0 <= i < whole.len() implies '0' <= #[trigger] whole[i] <= '9' by {
        assert(is_digit(whole[i]));
    }
    assert forall|i: int| 0 <= i < fraction.len() implies '0' <= #[trigger] fraction[i]
        <= '9' by {
        assert(digits[i] == fraction[i]);
        assert(is_digit(digits[i]));
    }
    (whole, fraction)
}

/// A block can be paid for exactly if both the allowance and the balance are at least the
/// mining fee and the 10000 units that the ledger takes. More of either does no harm.
pub proof fn when_a_block_can_be_paid_for(allowance: nat, balance: nat, fee: nat)
    ensures
        affordable(allowance, balance, fee) <==> fee + 10_000 <= allowance && fee + 10_000
            <= balance,
        block_cost(fee) == fee + 10_000,
{
}

/// More allowance or more balance never keeps a block from being paid for.
pub proof fn more_money_does_no_harm(
    allowance: nat,
    balance: nat,
    fee: nat,
    more_allowance: nat,
    more_balance: nat,
)
    requires
        affordable(allowance, balance, fee),
    ensures
        affordable(allowance + more_allowance, balance + more_balance, fee),
{
}

/// What is approved is spent to the last unit by the submissions that it is for, each of
/// which takes the mining fee and 10000 units for the ledger. At least one submission is
/// approved, and each further one adds as much as the one before it.
pub proof fn approvals_are_spent_exactly(fee: nat, blocks: u32)
    ensures
        blocks >= 1 ==> approval(fee, blocks) - blocks * (fee + 10_000) == 0,
        approval(fee, 0) == fee + 10_000,
        approval(fee, 1) == fee + 10_000,
        1 <= blocks < u32::MAX ==> approval(fee, (blocks + 1) as u32) - approval(fee, blocks)
            == fee + 10_000,
{
    let c = fee + 10_000;
    assert(c * blocks == blocks * c) by (nonlinear_arith);
    assert(c * (blocks + 1) == c * blocks + c) by (nonlinear_arith);
    assert(c * 1 == c);
}

/// Two tokens can be sent, each from the ledger that holds it.
pub proof fn which_tokens_can_be_sent(token: Seq<char>)
    ensures
        token == "PIKO"@ ==> ledger_of(token) == Some(PIKO_LEDGER_CANISTER_ID@),
        token == "ICP"@ ==> ledger_of(token) == Some(ICP_LEDGER_CANISTER_ID@),
        ledger_of(token) is Some <==> token == "PIKO"@ || token == "ICP"@,
{
    reveal_strlit("PIKO");
    reveal_strlit("ICP");
    assert("PIKO"@.len() != "ICP"@.len());
}

/// A transfer that is sent carries what was asked for and nothing else: the amount that
/// is spelled, to the main account of the recipient that is named, from the ledger of the
/// token.
pub proof fn what_is_sent(c: Call, token: Seq<char>, to: Seq<char>, amount: Seq<char>)
    requires
        sends(c, token, to, amount),
    ensures
        token == "PIKO"@ ==> principal_of_text(PIKO_LEDGER_CANISTER_ID@) == Ok::<
            Seq<u8>,
            Seq<char>,
        >(c.canister@),
        token != "PIKO"@ ==> token == "ICP"@ && principal_of_text(ICP_LEDGER_CANISTER_ID@) == Ok::<
            Seq<u8>,
            Seq<char>,
        >(c.canister@),
        c.method@ == "icrc1_transfer"@,
        c.update,
        c.args matches CallArgs::Transfer(arg) && {
            &&& principal_of_text(trimmed(to)) == Ok::<Seq<u8>, Seq<char>>(arg.to.owner@)
            &&& parse_decimal(encode_utf8(trimmed(amount))) == Some(arg.amount@)
            &&& arg.to.subaccount is None
            &&& arg.from_subaccount is None
            &&& arg.fee is None
            &&& arg.memo is None
            &&& arg.created_at_time is None
        },
{
    which_tokens_can_be_sent(token);
}

/// A transfer is refused for the first of these that is so: the token is not known, the
/// recipient or the amount cannot be read, the ledger cannot be. Otherwise it is sent.
pub proof fn why_a_transfer_is_refused(token: Seq<char>, to: Seq<char>, amount: Seq<char>)
    ensures
        ({
            let why = send_refusal(token, to, amount);
            let ledger = if token == "PIKO"@ {
                PIKO_LEDGER_CANISTER_ID@
            } else {
                ICP_LEDGER_CANISTER_ID@
            };
            if token != "PIKO"@ && token != "ICP"@ {
                why == Some("unknown token: "@ + token)
            } else if principal_of_text(trimmed(to)) is Err {
                why == Some("invalid recipient: "@ + principal_of_text(trimmed(to))->Err_0)
            } else if parse_decimal(encode_utf8(trimmed(amount))) is None {
                why == Some("invalid amount: "@ + "Cannot parse BigUint"@)
            } else if principal_of_text(ledger) is Err {
                why == Some(principal_of_text(ledger)->Err_0)
            } else {
                why is None
            }
        }),
{
    which_tokens_can_be_sent(token);
}

} // verus!
