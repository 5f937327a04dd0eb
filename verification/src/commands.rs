//! What the user can ask for: each command becomes a call, or is refused.

use crate::agent::{
    approves, asks_allowance, get_miner_stats, icp_allowance, icp_allowance_for_pool,
    ledger_balance, one_refused, refused, Call, CallArgs, ICP_LEDGER_CANISTER_ID, MOTHER_CANISTER_ID,
    PIKO_LEDGER_CANISTER_ID,
};
use crate::identity::principal_of_key;
use crate::natural::Natural;
use crate::principal::{principal_of_text, reads_as, Principal};
use crate::wallet::{approval, approval_amount};
use vstd::prelude::*;

verus! {

/// Whether `c` asks a ledger for the balance of the principal that `owner` spells.
pub open spec fn asks_balance(c: Call, owner: Seq<char>, ledger: Seq<char>) -> bool {
    &&& c.goes_to(ledger, "icrc1_balance_of"@, false)
    &&& c.args matches CallArgs::Balance(a) && a.subaccount is None && reads_as(owner, a.owner@)
}

/// Asks a ledger for the balance of the principal that `owner` spells.
fn balance_on(owner: &str, ledger: &str) -> (call: Result<Call, String>)
    ensures
        match call {
            Ok(c) => asks_balance(c, owner@, ledger@),
            Err(e) => one_refused(owner@, ledger@, e@),
        },
{
    match Principal::from_text(owner) {
        Ok(p) => ledger_balance(ledger, p),
        Err(e) => Err(e),
    }
}

/// Asks for the ICP that `owner` has.
pub fn get_icp_balance(owner: &str) -> (call: Result<Call, String>)
    ensures
        match call {
            Ok(c) => asks_balance(c, owner@, ICP_LEDGER_CANISTER_ID@),
            Err(e) => one_refused(owner@, ICP_LEDGER_CANISTER_ID@, e@),
        },
{
    balance_on(owner, ICP_LEDGER_CANISTER_ID)
}

/// Asks for the PIKO that `owner` has.
pub fn get_piko_balance(owner: &str) -> (call: Result<Call, String>)
    ensures
        match call {
            Ok(c) => asks_balance(c, owner@, PIKO_LEDGER_CANISTER_ID@),
            Err(e) => one_refused(owner@, PIKO_LEDGER_CANISTER_ID@, e@),
        },
{
    balance_on(owner, PIKO_LEDGER_CANISTER_ID)
}

/// Asks for the blocks that `owner` has won.
pub fn get_total_blocks_won(owner: &str) -> (call: Result<Call, String>)
    ensures
        match call {
            Ok(c) => c.goes_to(MOTHER_CANISTER_ID@, "getMinerStats"@, false)
                && (c.args matches CallArgs::Owner(p) && reads_as(owner@, p@)),
            Err(e) => one_refused(owner@, MOTHER_CANISTER_ID@, e@),
        },
{
    match Principal::from_text(owner) {
        Ok(p) => get_miner_stats(p),
        Err(e) => Err(e),
    }
}

/// Whether `c` asks what `spender` may take from the principal that `owner` spells.
pub open spec fn asks_allowance_of(c: Call, owner: Seq<char>, spender: Seq<char>) -> bool {
    principal_of_text(owner) matches Ok(bytes) && asks_allowance(c, bytes, spender)
}

/// Whether the owner, the ledger or the spender is refused as a principal: the error is
/// that of the first.
pub open spec fn allowance_refused(owner: Seq<char>, spender: Seq<char>, e: Seq<char>) -> bool {
    refused(owner, e) || principal_of_text(owner) is Ok && one_refused(
        ICP_LEDGER_CANISTER_ID@,
        spender,
        e,
    )
}

/// Asks how much of the ICP of `owner` may still be taken as mining fees.
pub fn get_icp_allowance(owner: &str) -> (call: Result<Call, String>)
    ensures
        match call {
            Ok(c) => asks_allowance_of(c, owner@, MOTHER_CANISTER_ID@),
            Err(e) => allowance_refused(owner@, MOTHER_CANISTER_ID@, e@),
        },
{
    match Principal::from_text(owner) {
        Ok(p) => icp_allowance(p),
        Err(e) => Err(e),
    }
}

/// Asks how much of the ICP of `owner` the pool may still take.
pub fn get_pool_icp_allowance(pool: &str, owner: &str) -> (call: Result<Call, String>)
    ensures
        match call {
            Ok(c) => asks_allowance_of(c, owner@, pool@),
            Err(e) => allowance_refused(owner@, pool@, e@),
        },
{
    match Principal::from_text(owner) {
        Ok(p) => icp_allowance_for_pool(pool, p),
        Err(e) => Err(e),
    }
}

/// Approves enough ICP for `blocks` submissions at the fee of the present work.
pub fn approve_icp(fee: &Natural, blocks: u32) -> (call: Result<Call, String>)
    ensures
        match call {
            Ok(c) => approves(c, approval(fee@, blocks), MOTHER_CANISTER_ID@),
            Err(e) => one_refused(ICP_LEDGER_CANISTER_ID@, MOTHER_CANISTER_ID@, e@),
        },
{
    crate::agent::approve_icp(approval_amount(fee, blocks))
}

/// Approves enough ICP for the pool to collect the whole fee of `blocks` blocks, which
/// is the most that could fall to one miner.
pub fn approve_icp_for_pool(pool: &str, fee: &Natural, blocks: u32) -> (call: Result<Call, String>)
    ensures
        match call {
            Ok(c) => approves(c, approval(fee@, blocks), pool@),
            Err(e) => one_refused(ICP_LEDGER_CANISTER_ID@, pool@, e@),
        },
{
    crate::agent::approve_icp_for_pool(pool, approval_amount(fee, blocks))
}

/// Whether mining is running, and whether it was asked to stop.
#[derive(Clone, Copy, Debug, PartialEq, Eq, Structural)]
pub struct Flags {
    pub running: bool,
    pub stop: bool,
}

impl Flags {
    /// The flags after the wish to start mining, for an owner that could be read or not.
    /// Mining counts as running from the wish on; a request to stop that is still up
    /// is taken back only where mining starts.
    pub open spec fn after_start(self, owner_read: bool) -> Flags {
        if self.running {
            self
        } else {
            Flags {
                running: true,
                stop: if owner_read {
                    false
                } else {
                    self.stop
                },
            }
        }
    }
}

/// Decides on the wish to start mining, once the owner has been read: the owner to mine
/// for, nothing if mining is running already, or why the owner could not be read.
pub fn decide_start(flags: &mut Flags, owner: Result<Principal, String>) -> (start: Result<
    Option<Principal>,
    String,
>)
    ensures
        start == (if old(flags).running {
            Ok::<Option<Principal>, String>(None)
        } else {
            match owner {
                Ok(p) => Ok(Some(p)),
                Err(e) => Err(e),
            }
        }),
        *final(flags) == old(flags).after_start(owner is Ok),
{
    if flags.running {
        return Ok(None);
    }
    flags.running = true;
    match owner {
        Ok(p) => {
            flags.stop = false;
            Ok(Some(p))
        },
        Err(e) => Err(e),
    }
}

/// Decides on the wish to start mining for `owner`: whom to mine for, nothing if mining
/// is running already, or why the owner could not be read.
pub fn start_mining(flags: &mut Flags, owner: &str) -> (start: Result<Option<Principal>, String>)
    ensures
        old(flags).running ==> start == Ok::<Option<Principal>, String>(None) && *final(flags)
            == *old(flags),
        !old(flags).running ==> match start {
            Ok(Some(p)) => p.wf() && reads_as(owner@, p@),
            Ok(None) => false,
            Err(e) => refused(owner@, e@),
        },
        *final(flags) == old(flags).after_start(principal_of_text(owner@) is Ok),
{
    decide_start(flags, Principal::from_text(owner))
}

/// While mining is running, the wish to start it again changes nothing: it goes on
/// running, and a request to stop it is not taken back.
pub proof fn starting_twice_changes_nothing(flags: Flags, first: bool, again: bool)
    ensures
        flags.running ==> flags.after_start(again) == flags,
        flags.after_start(first).running,
        flags.after_start(first).after_start(again) == flags.after_start(first),
{
}

/// A text that reads as the principal of this program's own key, as the text that is
/// shown for the key does, is never refused.
pub proof fn own_principal_is_accepted(key: Seq<u8>, text: Seq<char>, e: Seq<char>)
    requires
        reads_as(text, principal_of_key(key)),
    ensures
        !refused(text, e),
{
}

/// A wish to start mining that comes while nothing is running: from then on mining counts
/// as running, and a request to stop is taken back exactly if the owner could be read.
pub proof fn starting_takes_back_a_stop(flags: Flags)
    requires
        !flags.running,
    ensures
        flags.after_start(true) == (Flags { running: true, stop: false }),
        flags.after_start(false) == (Flags { running: true, stop: flags.stop }),
{
}

/// A question for a balance goes to the ledger that it is about, only reads, and is for
/// the main account of the principal that the owner's text is read as.
pub proof fn what_a_question_for_a_balance_carries(c: Call, owner: Seq<char>, ledger: Seq<char>)
    ensures
        asks_balance(c, owner, ledger) <==> {
            &&& principal_of_text(ledger) == Ok::<Seq<u8>, Seq<char>>(c.canister@)
            &&& c.canister@.len() <= 29
            &&& c.method@ == "icrc1_balance_of"@
            &&& !c.update
            &&& c.args matches CallArgs::Balance(account) && principal_of_text(owner) == Ok::<
                Seq<u8>,
                Seq<char>,
            >(account.owner@) && account.subaccount is None
        },
{
}

/// A question for an allowance goes to the ICP ledger, only reads, and is for what the
/// main account of the spender may take from the main account of the owner. It cannot
/// be asked where the owner, the ledger or the spender is refused; the first of them
/// that is says why.
pub proof fn what_a_question_for_an_allowance_carries(
    c: Call,
    owner: Seq<char>,
    spender: Seq<char>,
    e: Seq<char>,
)
    ensures
        asks_allowance_of(c, owner, spender) <==> {
            &&& principal_of_text(ICP_LEDGER_CANISTER_ID@) == Ok::<Seq<u8>, Seq<char>>(c.canister@)
            &&& c.canister@.len() <= 29
            &&& c.method@ == "icrc2_allowance"@
            &&& !c.update
            &&& c.args matches CallArgs::Allowance(a) && principal_of_text(owner) == Ok::<
                Seq<u8>,
                Seq<char>,
            >(a.account.owner@) && a.account.subaccount is None && principal_of_text(spender)
                == Ok::<Seq<u8>, Seq<char>>(a.spender.owner@) && a.spender.subaccount is None
        },
        allowance_refused(owner, spender, e) <==> match principal_of_text(owner) {
            Err(why) => e == why,
            Ok(_) => match principal_of_text(ICP_LEDGER_CANISTER_ID@) {
                Err(why) => e == why,
                Ok(_) => match principal_of_text(spender) {
                    Err(why) => e == why,
                    Ok(_) => false,
                },
            },
        },
{
}

} // verus!
