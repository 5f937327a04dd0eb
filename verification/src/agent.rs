//! The calls that are made to the canisters, and what their answers mean.

use crate::natural::Natural;
use crate::principal::{principal_of_text, reads_as, Principal};
use crate::text::join2;
use crate::types::{
    Account, Allowance, AllowanceArgs, ApproveArgs, ApproveResult, TransferArg, TransferResult,
};
use vstd::prelude::*;
use vstd::string::*;

verus! {

/// The canister that hands out work and takes proofs.
pub const MOTHER_CANISTER_ID: &'static str = "45mjf-rqaaa-aaaaj-qsedq-cai";

/// The ledger that holds ICP.
pub const ICP_LEDGER_CANISTER_ID: &'static str = "ryjl3-tyaaa-aaaaa-aaaba-cai";

/// The ledger that holds PIKO.
pub const PIKO_LEDGER_CANISTER_ID: &'static str = "56aad-fiaaa-aaaaj-qsefa-cai";

/// Where calls are sent.
pub const MAINNET_URL: &'static str = "https://icp-api.io";

/// What a call carries.
#[derive(Debug)]
pub enum CallArgs {
    Nothing,
    Owner(Principal),
    Nonce(Natural),
    Share { height: Natural, nonce: Natural },
    Balance(Account),
    Transfer(TransferArg),
    Allowance(AllowanceArgs),
    Approve(ApproveArgs),
}

/// A call to a canister. A query only reads; an update is waited for until the
/// canister has carried it out.
#[derive(Debug)]
pub struct Call {
    pub canister: Principal,
    pub method: &'static str,
    pub update: bool,
    pub args: CallArgs,
}

impl Call {
    /// Whether this is a call of `method` on the canister with the id `canister`.
    pub open spec fn goes_to(self, canister: Seq<char>, method: Seq<char>, update: bool) -> bool {
        &&& reads_as(canister, self.canister@)
        &&& self.canister.wf()
        &&& self.method@ == method
        &&& self.update == update
    }

    /// What is shown when the call does not come through.
    pub fn failure(&self) -> (s: String)
        ensures
            s@ == self.method@ + " call failed"@,
    {
        join2(self.method, " call failed")
    }
}

/// Whether `id` is refused as a principal, with the error `e`.
pub open spec fn refused(id: Seq<char>, e: Seq<char>) -> bool {
    principal_of_text(id) matches Err(why) && why == e
}

impl Account {
    /// Whether this is the main account of the principal with these bytes.
    pub open spec fn is_main_of(self, owner: Seq<u8>) -> bool {
        &&& self.owner@ == owner
        &&& self.subaccount is None
    }
}

/// The main account of a principal.
fn main_account(owner: Principal) -> (account: Account)
    ensures
        account.is_main_of(owner@),
        account.owner == owner,
{
    Account { owner, subaccount: None }
}

/// A call of `method` on `canister`, if there is such a canister.
pub fn call_on(
    canister: Result<Principal, String>,
    method: &'static str,
    update: bool,
    args: CallArgs,
) -> (call: Result<Call, String>)
    ensures
        match canister {
            Ok(p) => call == Ok::<Call, String>(Call { canister: p, method, update, args }),
            Err(e) => call == Err::<Call, String>(e),
        },
{
    match canister {
        Ok(canister) => Ok(Call { canister, method, update, args }),
        Err(e) => Err(e),
    }
}

/// A call of `method` on the canister with the id `canister`.
fn call_to(canister: &str, method: &'static str, update: bool, args: CallArgs) -> (call: Result<
    Call,
    String,
>)
    ensures
        match call {
            Ok(c) => c.goes_to(canister@, method@, update) && c.args == args,
            Err(e) => refused(canister@, e@),
        },
{
    call_on(Principal::from_text(canister), method, update, args)
}

/// Asks for the network's statistics.
pub fn get_stats() -> (call: Result<Call, String>)
    ensures
        match call {
            Ok(c) => c.goes_to(MOTHER_CANISTER_ID@, "getStats"@, false) && c.args is Nothing,
            Err(e) => refused(MOTHER_CANISTER_ID@, e@),
        },
{
    call_to(MOTHER_CANISTER_ID, "getStats", false, CallArgs::Nothing)
}

/// Asks for the blocks mined last, oldest first.
pub fn get_recent_blocks() -> (call: Result<Call, String>)
    ensures
        match call {
            Ok(c) => c.goes_to(MOTHER_CANISTER_ID@, "getRecentBlocks"@, false)
                && c.args is Nothing,
            Err(e) => refused(MOTHER_CANISTER_ID@, e@),
        },
{
    call_to(MOTHER_CANISTER_ID, "getRecentBlocks", false, CallArgs::Nothing)
}

/// Asks for what `owner` has won.
pub fn get_miner_stats(owner: Principal) -> (call: Result<Call, String>)
    ensures
        match call {
            Ok(c) => c.goes_to(MOTHER_CANISTER_ID@, "getMinerStats"@, false) && c.args
                == CallArgs::Owner(owner),
            Err(e) => refused(MOTHER_CANISTER_ID@, e@),
        },
{
    call_to(MOTHER_CANISTER_ID, "getMinerStats", false, CallArgs::Owner(owner))
}

/// Asks for what there is to mine.
pub fn get_work() -> (call: Result<Call, String>)
    ensures
        match call {
            Ok(c) => c.goes_to(MOTHER_CANISTER_ID@, "getWork"@, false) && c.args is Nothing,
            Err(e) => refused(MOTHER_CANISTER_ID@, e@),
        },
{
    call_to(MOTHER_CANISTER_ID, "getWork", false, CallArgs::Nothing)
}

/// Submits the nonce of a block.
pub fn submit_proof(nonce: u64) -> (call: Result<Call, String>)
    ensures
        match call {
            Ok(c) => c.goes_to(MOTHER_CANISTER_ID@, "submitProof"@, true)
                && (c.args matches CallArgs::Nonce(n) && n@ == nonce),
            Err(e) => refused(MOTHER_CANISTER_ID@, e@),
        },
{
    call_to(MOTHER_CANISTER_ID, "submitProof", true, CallArgs::Nonce(Natural::from_u64(nonce)))
}

/// Submits a nonce to the pool, for the block at `height`.
pub fn submit_share(pool: &str, height: u64, nonce: u64) -> (call: Result<Call, String>)
    ensures
        match call {
            Ok(c) => c.goes_to(pool@, "submitShare"@, true)
                && (c.args matches CallArgs::Share { height: h, nonce: n } && h@ == height && n@
                == nonce),
            Err(e) => refused(pool@, e@),
        },
{
    let args = CallArgs::Share {
        height: Natural::from_u64(height),
        nonce: Natural::from_u64(nonce),
    };
    call_to(pool, "submitShare", true, args)
}

/// Asks for the balance of `owner` on the ledger `ledger_id`.
pub fn ledger_balance(ledger_id: &str, owner: Principal) -> (call: Result<Call, String>)
    ensures
        match call {
            Ok(c) => c.goes_to(ledger_id@, "icrc1_balance_of"@, false)
                && (c.args matches CallArgs::Balance(a) && a.is_main_of(owner@)),
            Err(e) => refused(ledger_id@, e@),
        },
{
    call_to(ledger_id, "icrc1_balance_of", false, CallArgs::Balance(main_account(owner)))
}

impl TransferArg {
    /// Whether this moves `amount` to the main account of `to`, at the ledger's own fee.
    pub open spec fn moves(self, to: Seq<u8>, amount: nat) -> bool {
        &&& self.from_subaccount is None
        &&& self.to.is_main_of(to)
        &&& self.amount@ == amount
        &&& self.fee is None
        &&& self.memo is None
        &&& self.created_at_time is None
    }
}

/// The request to move `amount` to the main account of `to`.
pub fn transfer_arg(to: Principal, amount: Natural) -> (arg: TransferArg)
    ensures
        arg.moves(to@, amount@),
{
    TransferArg {
        from_subaccount: None,
        to: main_account(to),
        amount,
        fee: None,
        memo: None,
        created_at_time: None,
    }
}

/// Sends `amount` of the token that `ledger_id` holds to `to`.
pub fn transfer(ledger_id: &str, to: Principal, amount: Natural) -> (call: Result<Call, String>)
    ensures
        match call {
            Ok(c) => c.goes_to(ledger_id@, "icrc1_transfer"@, true)
                && (c.args matches CallArgs::Transfer(a) && a.moves(to@, amount@)),
            Err(e) => refused(ledger_id@, e@),
        },
{
    call_to(ledger_id, "icrc1_transfer", true, CallArgs::Transfer(transfer_arg(to, amount)))
}

/// What a ledger's answer to a transfer means: the index of the ledger's block, or
/// what is shown of the refusal.
pub fn transfer_outcome(result: TransferResult) -> (outcome: Result<Natural, String>)
    ensures
        match result {
            Ok(index) => outcome == Ok::<Natural, String>(index),
            Err(why) => outcome matches Err(e) && e@ == "transfer rejected: "@ + why.shown(),
        },
{
    match result {
        Ok(index) => Ok(index),
        Err(why) => Err(join2("transfer rejected: ", why.show().as_str())),
    }
}

impl AllowanceArgs {
    /// Whether this asks what `spender` may still take from `owner`.
    pub open spec fn asks(self, owner: Seq<u8>, spender: Seq<u8>) -> bool {
        self.account.is_main_of(owner) && self.spender.is_main_of(spender)
    }
}

/// Whether `c` asks the ICP ledger for what `spender` may still take from `owner`.
pub open spec fn asks_allowance(c: Call, owner: Seq<u8>, spender: Seq<char>) -> bool {
    &&& c.goes_to(ICP_LEDGER_CANISTER_ID@, "icrc2_allowance"@, false)
    &&& c.args matches CallArgs::Allowance(a) && reads_as(spender, a.spender.owner@) && a.asks(
        owner,
        a.spender.owner@,
    )
}

/// Whether one of two ids is refused as a principal: the error is that of the first.
pub open spec fn one_refused(first: Seq<char>, second: Seq<char>, e: Seq<char>) -> bool {
    refused(first, e) || principal_of_text(first) is Ok && refused(second, e)
}

/// A question to `ledger` for what `spender` may still take from `owner`, if there are
/// such principals.
pub fn allowance_call(
    ledger: Result<Principal, String>,
    owner: Principal,
    spender: Result<Principal, String>,
) -> (call: Result<Call, String>)
    ensures
        match (ledger, spender) {
            (Ok(canister), Ok(to)) => call matches Ok(c) && c.canister == canister && c.method@
                == "icrc2_allowance"@ && !c.update && (c.args matches CallArgs::Allowance(a)
                && a.asks(owner@, to@)),
            (Err(e), _) => call == Err::<Call, String>(e),
            (Ok(_), Err(e)) => call == Err::<Call, String>(e),
        },
{
    match ledger {
        Ok(canister) => match spender {
            Ok(spender) => {
                let args = AllowanceArgs {
                    account: main_account(owner),
                    spender: main_account(spender),
                };
                call_on(Ok(canister), "icrc2_allowance", false, CallArgs::Allowance(args))
            },
            Err(e) => Err(e),
        },
        Err(e) => Err(e),
    }
}

/// Asks what `spender` may still take from `owner`.
fn allowance_for(owner: Principal, spender: &str) -> (call: Result<Call, String>)
    ensures
        match call {
            Ok(c) => asks_allowance(c, owner@, spender@),
            Err(e) => one_refused(ICP_LEDGER_CANISTER_ID@, spender@, e@),
        },
{
    allowance_call(
        Principal::from_text(ICP_LEDGER_CANISTER_ID),
        owner,
        Principal::from_text(spender),
    )
}

/// Asks how much of the ICP of `owner` may still be taken as mining fees.
pub fn icp_allowance(owner: Principal) -> (call: Result<Call, String>)
    ensures
        match call {
            Ok(c) => asks_allowance(c, owner@, MOTHER_CANISTER_ID@),
            Err(e) => one_refused(ICP_LEDGER_CANISTER_ID@, MOTHER_CANISTER_ID@, e@),
        },
{
    allowance_for(owner, MOTHER_CANISTER_ID)
}

/// Asks how much of the ICP of `owner` the pool may still take.
pub fn icp_allowance_for_pool(pool: &str, owner: Principal) -> (call: Result<Call, String>)
    ensures
        match call {
            Ok(c) => asks_allowance(c, owner@, pool@),
            Err(e) => one_refused(ICP_LEDGER_CANISTER_ID@, pool@, e@),
        },
{
    allowance_for(owner, pool)
}

/// What a ledger's answer to a question for an allowance means: how much may still be
/// taken. When the allowance expires does not count.
pub fn allowance_outcome(answer: Allowance) -> (n: Natural)
    ensures
        n == answer.allowance,
{
    answer.allowance
}

impl ApproveArgs {
    /// Whether this lets `spender` take `amount`, without further conditions.
    pub open spec fn grants(self, amount: nat, spender: Seq<u8>) -> bool {
        &&& self.amount@ == amount
        &&& self.spender.is_main_of(spender)
        &&& self.fee is None
        &&& self.memo is None
        &&& self.from_subaccount is None
        &&& self.created_at_time is None
        &&& self.expected_allowance is None
        &&& self.expires_at is None
    }
}

/// Whether `c` lets `spender` take `amount` of ICP, without further conditions.
pub open spec fn approves(c: Call, amount: nat, spender: Seq<char>) -> bool {
    &&& c.goes_to(ICP_LEDGER_CANISTER_ID@, "icrc2_approve"@, true)
    &&& c.args matches CallArgs::Approve(a) && reads_as(spender, a.spender.owner@) && a.grants(
        amount,
        a.spender.owner@,
    )
}

/// A request to `ledger` to let `spender` take `amount`, if there are such principals.
pub fn approve_call(
    ledger: Result<Principal, String>,
    amount: Natural,
    spender: Result<Principal, String>,
) -> (call: Result<Call, String>)
    ensures
        match (ledger, spender) {
            (Ok(canister), Ok(to)) => call matches Ok(c) && c.canister == canister && c.method@
                == "icrc2_approve"@ && c.update && (c.args matches CallArgs::Approve(a)
                && a.grants(amount@, to@)),
            (Err(e), _) => call == Err::<Call, String>(e),
            (Ok(_), Err(e)) => call == Err::<Call, String>(e),
        },
{
    match ledger {
        Ok(canister) => match spender {
            Ok(spender) => {
                let args = ApproveArgs {
                    fee: None,
                    memo: None,
                    from_subaccount: None,
                    created_at_time: None,
                    amount,
                    expected_allowance: None,
                    expires_at: None,
                    spender: main_account(spender),
                };
                call_on(Ok(canister), "icrc2_approve", true, CallArgs::Approve(args))
            },
            Err(e) => Err(e),
        },
        Err(e) => Err(e),
    }
}

/// Lets `spender` take `amount` of ICP.
fn approval_for(amount: Natural, spender: &str) -> (call: Result<Call, String>)
    ensures
        match call {
            Ok(c) => approves(c, amount@, spender@),
            Err(e) => one_refused(ICP_LEDGER_CANISTER_ID@, spender@, e@),
        },
{
    approve_call(
        Principal::from_text(ICP_LEDGER_CANISTER_ID),
        amount,
        Principal::from_text(spender),
    )
}

/// Lets `amount` of ICP be taken as mining fees.
pub fn approve_icp(amount: Natural) -> (call: Result<Call, String>)
    ensures
        match call {
            Ok(c) => approves(c, amount@, MOTHER_CANISTER_ID@),
            Err(e) => one_refused(ICP_LEDGER_CANISTER_ID@, MOTHER_CANISTER_ID@, e@),
        },
{
    approval_for(amount, MOTHER_CANISTER_ID)
}

/// Lets the pool take `amount` of ICP.
pub fn approve_icp_for_pool(pool: &str, amount: Natural) -> (call: Result<Call, String>)
    ensures
        match call {
            Ok(c) => approves(c, amount@, pool@),
            Err(e) => one_refused(ICP_LEDGER_CANISTER_ID@, pool@, e@),
        },
{
    approval_for(amount, pool)
}

/// What a ledger's answer to an approval means: the index of the ledger's block, or
/// what is shown of the refusal.
pub fn approve_outcome(result: ApproveResult) -> (outcome: Result<Natural, String>)
    ensures
        match result {
            Ok(index) => outcome == Ok::<Natural, String>(index),
            Err(why) => outcome matches Err(e) && e@ == "approval rejected: "@ + why.shown(),
        },
{
    match result {
        Ok(index) => Ok(index),
        Err(why) => Err(join2("approval rejected: ", why.show().as_str())),
    }
}

/// What the pool's answer to a claim means: the index of the ledger's block, or what
/// is shown of the refusal.
pub fn claim_outcome(result: TransferResult) -> (outcome: Result<Natural, String>)
    ensures
        match result {
            Ok(index) => outcome == Ok::<Natural, String>(index),
            Err(why) => outcome matches Err(e) && e@ == why.shown(),
        },
{
    match result {
        Ok(index) => Ok(index),
        Err(why) => Err(why.show()),
    }
}

/// Where a call goes: to the canister whose id is read as its principal, by this method,
/// as an update or as a query.
pub proof fn where_a_call_goes(c: Call, canister: Seq<char>, method: Seq<char>, update: bool)
    ensures
        c.goes_to(canister, method, update) <==> {
            &&& principal_of_text(canister) == Ok::<Seq<u8>, Seq<char>>(c.canister@)
            &&& c.canister@.len() <= 29
            &&& c.method@ == method
            &&& c.update == update
        },
{
}

/// An id is refused with the error that reading it gives; of two ids, the first that is
/// refused says why.
pub proof fn why_an_id_is_refused(first: Seq<char>, second: Seq<char>, e: Seq<char>)
    ensures
        refused(first, e) <==> principal_of_text(first) == Err::<Seq<u8>, Seq<char>>(e),
        one_refused(first, second, e) <==> match principal_of_text(first) {
            Err(why) => e == why,
            Ok(_) => match principal_of_text(second) {
                Err(why) => e == why,
                Ok(_) => false,
            },
        },
{
}

/// A transfer carries the amount and the main account that it goes to. It says nothing
/// of a fee, a memo or a time, and takes the tokens from the main account.
pub proof fn what_a_transfer_carries(arg: TransferArg, to: Seq<u8>, amount: nat)
    ensures
        arg.moves(to, amount) <==> {
            &&& arg.amount@ == amount
            &&& arg.to.owner@ == to
            &&& arg.to.subaccount is None
            &&& arg.from_subaccount is None
            &&& arg.fee is None
            &&& arg.memo is None
            &&& arg.created_at_time is None
        },
{
}

/// An approval goes to the ICP ledger as an update. It carries the amount and the main
/// account of the spender, does not expire, and depends on nothing else.
pub proof fn what_an_approval_carries(c: Call, amount: nat, spender: Seq<char>)
    ensures
        approves(c, amount, spender) <==> {
            &&& principal_of_text(ICP_LEDGER_CANISTER_ID@) == Ok::<Seq<u8>, Seq<char>>(c.canister@)
            &&& c.canister@.len() <= 29
            &&& c.method@ == "icrc2_approve"@
            &&& c.update
            &&& c.args matches CallArgs::Approve(a) && a.amount@ == amount && principal_of_text(
                spender,
            ) == Ok::<Seq<u8>, Seq<char>>(a.spender.owner@) && a.spender.subaccount is None
                && a.fee is None && a.memo is None && a.from_subaccount is None
                && a.created_at_time is None && a.expected_allowance is None
                && a.expires_at is None
        },
{
}

/// An approval lets exactly one spender take exactly one amount.
pub proof fn an_approval_is_for_one_amount(c: Call, a: nat, b: nat, spender: Seq<char>)
    requires
        approves(c, a, spender),
        approves(c, b, spender),
    ensures
        a == b,
{
}

/// A request to let `spender` take an amount says so of that spender and that amount.
pub proof fn what_an_approval_grants(args: ApproveArgs, amount: nat, spender: Seq<u8>)
    ensures
        args.grants(amount, spender) <==> {
            &&& args.amount@ == amount
            &&& args.spender.owner@ == spender
            &&& args.spender.subaccount is None
            &&& args.fee is None
            &&& args.memo is None
            &&& args.from_subaccount is None
            &&& args.created_at_time is None
            &&& args.expected_allowance is None
            &&& args.expires_at is None
        },
{
}

/// A question for an allowance goes to the ICP ledger and only reads. It is for what the
/// main account of the spender may take from the main account of the owner.
pub proof fn what_an_allowance_question_asks(
    c: Call,
    args: AllowanceArgs,
    owner: Seq<u8>,
    spender: Seq<char>,
    spender_bytes: Seq<u8>,
)
    ensures
        args.asks(owner, spender_bytes) <==> {
            &&& args.account.owner@ == owner && args.account.subaccount is None
            &&& args.spender.owner@ == spender_bytes && args.spender.subaccount is None
        },
        asks_allowance(c, owner, spender) <==> {
            &&& principal_of_text(ICP_LEDGER_CANISTER_ID@) == Ok::<Seq<u8>, Seq<char>>(c.canister@)
            &&& c.canister@.len() <= 29
            &&& c.method@ == "icrc2_allowance"@
            &&& !c.update
            &&& c.args matches CallArgs::Allowance(a) && a.account.owner@ == owner
                && a.account.subaccount is None && principal_of_text(spender) == Ok::<
                Seq<u8>,
                Seq<char>,
            >(a.spender.owner@) && a.spender.subaccount is None
        },
{
}

} // verus!
