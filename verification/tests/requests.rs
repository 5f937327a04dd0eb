use piko_miner::agent::{
    allowance_call, allowance_outcome, approve_call, approve_icp, approve_icp_for_pool, approve_outcome, call_on,
    claim_outcome, get_miner_stats, get_recent_blocks, get_stats, get_work, icp_allowance,
    icp_allowance_for_pool, ledger_balance, submit_proof, submit_share, transfer, transfer_arg,
    transfer_outcome, Call, CallArgs, ICP_LEDGER_CANISTER_ID, MAINNET_URL, MOTHER_CANISTER_ID,
    PIKO_LEDGER_CANISTER_ID,
};
use piko_miner::commands::{self, decide_start, start_mining, Flags};
use piko_miner::identity::{
    fresh_key, key_from_file, key_principal_text, load_or_create_identity, restrict_to_owner, KEY_DIRECTORY,
    KEY_FILE,
};
use piko_miner::natural::Natural;
use piko_miner::principal::Principal;
use piko_miner::types::{
    Allowance, ApproveError, ShareError, SubmitError, TooSoonInfo, TransferError, TransferFromError,
};
use piko_miner::wallet::{decide_send, ledger_id, send_token};

const MOTHER: [u8; 10] = [0, 0, 0, 0, 1, 48, 145, 7, 1, 1];
const ICP: [u8; 10] = [0, 0, 0, 0, 0, 0, 0, 2, 1, 1];
const PIKO: [u8; 10] = [0, 0, 0, 0, 1, 48, 145, 10, 1, 1];
// An id of the pool's shape; the anonymous principal stands for an owner.
const POOL_ID: &str = "rrkah-fqaaa-aaaaa-aaaaq-cai";
const POOL: [u8; 10] = [0, 0, 0, 0, 0, 0, 0, 1, 1, 1];
const OWNER_ID: &str = "2vxsx-fae";

fn owner() -> Principal {
    Principal { bytes: vec![4] }
}

fn n(value: u64) -> Natural {
    Natural::from_u64(value)
}

fn checks(call: &Call, canister: &[u8], method: &str, update: bool) {
    assert_eq!(call.canister.bytes, canister);
    assert_eq!(call.method, method);
    assert_eq!(call.update, update);
}

#[test]
fn principals_are_read_and_shown() {
    for (id, bytes) in [
        (MOTHER_CANISTER_ID, &MOTHER),
        (ICP_LEDGER_CANISTER_ID, &ICP),
        (PIKO_LEDGER_CANISTER_ID, &PIKO),
    ] {
        let p = Principal::from_text(id).unwrap();
        assert_eq!(p.bytes, bytes);
        assert_eq!(p.to_text(), id);
        assert_eq!(p.clone().bytes, p.bytes);
    }
    assert_eq!(Principal { bytes: vec![] }.to_text(), "aaaaa-aa");
    assert_eq!(owner().to_text(), OWNER_ID);
}

#[test]
fn bad_principals_are_refused() {
    for bad in ["", "nonsense", "45mjf-rqaaa-aaaaj-qsedq-caj", " 2vxsx-fae"] {
        let why = candid::Principal::from_text(bad).unwrap_err().to_string();
        assert_eq!(Principal::from_text(bad).unwrap_err(), why);
    }
}

#[test]
fn plain_queries_ask_the_mother_canister() {
    for (call, method) in [
        (get_stats().unwrap(), "getStats"),
        (get_recent_blocks().unwrap(), "getRecentBlocks"),
        (get_work().unwrap(), "getWork"),
    ] {
        checks(&call, &MOTHER, method, false);
        assert!(matches!(call.args, CallArgs::Nothing));
        assert_eq!(call.failure(), format!("{method} call failed"));
    }
    let call = get_miner_stats(owner()).unwrap();
    checks(&call, &MOTHER, "getMinerStats", false);
    assert!(matches!(call.args, CallArgs::Owner(p) if p.bytes == [4]));
    assert_eq!(MAINNET_URL, "https://icp-api.io");
}

#[test]
fn proofs_and_shares_are_updates() {
    let call = submit_proof(u64::MAX).unwrap();
    checks(&call, &MOTHER, "submitProof", true);
    assert!(matches!(call.args, CallArgs::Nonce(x) if x.to_u64() == Some(u64::MAX)));
    let call = submit_share(POOL_ID, 7, 9).unwrap();
    checks(&call, &POOL, "submitShare", true);
    assert!(matches!(call.args, CallArgs::Share { height, nonce }
        if height.to_u64() == Some(7) && nonce.to_u64() == Some(9)));
    assert!(submit_share("pool", 7, 9).is_err());
}

#[test]
fn balances_are_asked_of_main_accounts() {
    let call = ledger_balance(PIKO_LEDGER_CANISTER_ID, owner()).unwrap();
    checks(&call, &PIKO, "icrc1_balance_of", false);
    assert!(matches!(call.args, CallArgs::Balance(a)
        if a.owner.bytes == [4] && a.subaccount.is_none()));
    assert!(ledger_balance("ledger", owner()).is_err());
}

#[test]
fn transfers_leave_everything_else_open() {
    let arg = transfer_arg(owner(), n(12));
    assert_eq!(arg.to.owner.bytes, [4]);
    assert_eq!(arg.amount.to_u64(), Some(12));
    assert!(arg.to.subaccount.is_none() && arg.from_subaccount.is_none());
    assert!(arg.fee.is_none() && arg.memo.is_none() && arg.created_at_time.is_none());
    let call = transfer(ICP_LEDGER_CANISTER_ID, owner(), n(12)).unwrap();
    checks(&call, &ICP, "icrc1_transfer", true);
    assert!(matches!(call.args, CallArgs::Transfer(_)));
}

#[test]
fn allowances_are_asked_for_the_right_spender() {
    for (call, spender) in [
        (icp_allowance(owner()).unwrap(), MOTHER),
        (icp_allowance_for_pool(POOL_ID, owner()).unwrap(), POOL),
    ] {
        checks(&call, &ICP, "icrc2_allowance", false);
        assert!(matches!(call.args, CallArgs::Allowance(a)
            if a.account.owner.bytes == [4] && a.spender.owner.bytes == spender));
    }
    assert!(icp_allowance_for_pool("", owner()).is_err());
    let bad = allowance_call(Err("first".to_string()), owner(), Err("second".to_string()));
    assert_eq!(bad.unwrap_err(), "first");
    let bad = allowance_call(Ok(owner()), owner(), Err("second".to_string()));
    assert_eq!(bad.unwrap_err(), "second");
}

#[test]
fn approvals_name_amount_and_spender() {
    for (call, spender) in [
        (approve_icp(n(77)).unwrap(), MOTHER),
        (approve_icp_for_pool(POOL_ID, n(77)).unwrap(), POOL),
    ] {
        checks(&call, &ICP, "icrc2_approve", true);
        assert!(matches!(call.args, CallArgs::Approve(a)
            if a.amount.to_u64() == Some(77)
                && a.spender.owner.bytes == spender
                && a.spender.subaccount.is_none()
                && a.fee.is_none()
                && a.memo.is_none()
                && a.from_subaccount.is_none()
                && a.created_at_time.is_none()
                && a.expected_allowance.is_none()
                && a.expires_at.is_none()));
    }
    let bad = approve_call(Err("first".to_string()), n(1), Err("second".to_string()));
    assert_eq!(bad.unwrap_err(), "first");
    let bad = approve_call(Ok(owner()), n(1), Err("second".to_string()));
    assert_eq!(bad.unwrap_err(), "second");
}

#[test]
fn calls_need_a_canister() {
    let call = call_on(Ok(owner()), "m", true, CallArgs::Nothing).unwrap();
    checks(&call, &[4], "m", true);
    let call = call_on(Err("no such".to_string()), "m", true, CallArgs::Nothing);
    assert_eq!(call.unwrap_err(), "no such");
}

#[test]
fn answers_of_a_ledger_are_explained() {
    assert_eq!(transfer_outcome(Ok(n(3))).unwrap().to_u64(), Some(3));
    assert_eq!(approve_outcome(Ok(n(4))).unwrap().to_u64(), Some(4));
    assert_eq!(claim_outcome(Ok(n(5))).unwrap().to_u64(), Some(5));
    let answer = Allowance { allowance: n(6), expires_at: Some(1) };
    assert_eq!(allowance_outcome(answer).to_u64(), Some(6));
    assert_eq!(
        transfer_outcome(Err(TransferError::BadFee { expected_fee: n(10_000) })).unwrap_err(),
        "transfer rejected: BadFee { expected_fee: Nat(10000) }"
    );
    assert_eq!(
        approve_outcome(Err(ApproveError::TooOld)).unwrap_err(),
        "approval rejected: TooOld"
    );
    assert_eq!(
        claim_outcome(Err(TransferError::InsufficientFunds { balance: n(0) })).unwrap_err(),
        "InsufficientFunds { balance: Nat(0) }"
    );
}

#[test]
fn transfer_refusals_are_shown() {
    let say = |e: TransferError| e.show();
    assert_eq!(say(TransferError::BadBurn { min_burn_amount: n(1) }), "BadBurn { min_burn_amount: Nat(1) }");
    assert_eq!(say(TransferError::TooOld), "TooOld");
    assert_eq!(
        say(TransferError::CreatedInFuture { ledger_time: u64::MAX }),
        "CreatedInFuture { ledger_time: 18446744073709551615 }"
    );
    assert_eq!(say(TransferError::TemporarilyUnavailable), "TemporarilyUnavailable");
    assert_eq!(say(TransferError::Duplicate { duplicate_of: n(2) }), "Duplicate { duplicate_of: Nat(2) }");
    assert_eq!(
        say(TransferError::GenericError { error_code: n(3), message: "no \"such\"\n\u{e9}".to_string() }),
        "GenericError { error_code: Nat(3), message: \"no \\\"such\\\"\\n\u{e9}\" }"
    );
}

#[test]
fn approval_refusals_are_shown() {
    let say = |e: ApproveError| e.show();
    assert_eq!(say(ApproveError::BadFee { expected_fee: n(1) }), "BadFee { expected_fee: Nat(1) }");
    assert_eq!(say(ApproveError::InsufficientFunds { balance: n(1) }), "InsufficientFunds { balance: Nat(1) }");
    assert_eq!(
        say(ApproveError::AllowanceChanged { current_allowance: n(1) }),
        "AllowanceChanged { current_allowance: Nat(1) }"
    );
    assert_eq!(say(ApproveError::Expired { ledger_time: 0 }), "Expired { ledger_time: 0 }");
    assert_eq!(say(ApproveError::CreatedInFuture { ledger_time: 12 }), "CreatedInFuture { ledger_time: 12 }");
    assert_eq!(say(ApproveError::Duplicate { duplicate_of: n(9) }), "Duplicate { duplicate_of: Nat(9) }");
    assert_eq!(say(ApproveError::TemporarilyUnavailable), "TemporarilyUnavailable");
    assert_eq!(
        say(ApproveError::GenericError { error_code: n(0), message: String::new() }),
        "GenericError { error_code: Nat(0), message: \"\" }"
    );
}

#[test]
fn proof_refusals_are_shown() {
    let fee = |e: TransferFromError| SubmitError::IcpFeeFailed(e).show();
    assert_eq!(fee(TransferFromError::BadBurn { min_burn_amount: n(1) }), "IcpFeeFailed(BadBurn { min_burn_amount: Nat(1) })");
    assert_eq!(fee(TransferFromError::BadFee { expected_fee: n(1) }), "IcpFeeFailed(BadFee { expected_fee: Nat(1) })");
    assert_eq!(fee(TransferFromError::CreatedInFuture { ledger_time: 1 }), "IcpFeeFailed(CreatedInFuture { ledger_time: 1 })");
    assert_eq!(fee(TransferFromError::Duplicate { duplicate_of: n(1) }), "IcpFeeFailed(Duplicate { duplicate_of: Nat(1) })");
    assert_eq!(
        fee(TransferFromError::GenericError { error_code: n(1), message: "x".to_string() }),
        "IcpFeeFailed(GenericError { error_code: Nat(1), message: \"x\" })"
    );
    assert_eq!(
        fee(TransferFromError::InsufficientAllowance { allowance: n(1) }),
        "IcpFeeFailed(InsufficientAllowance { allowance: Nat(1) })"
    );
    assert_eq!(fee(TransferFromError::InsufficientFunds { balance: n(1) }), "IcpFeeFailed(InsufficientFunds { balance: Nat(1) })");
    assert_eq!(fee(TransferFromError::TemporarilyUnavailable), "IcpFeeFailed(TemporarilyUnavailable)");
    assert_eq!(fee(TransferFromError::TooOld), "IcpFeeFailed(TooOld)");
    assert_eq!(SubmitError::Anonymous.show(), "Anonymous");
    assert_eq!(SubmitError::InvalidProof.show(), "InvalidProof");
    assert_eq!(SubmitError::NothingToClaim.show(), "NothingToClaim");
    assert_eq!(SubmitError::StaleWork.show(), "StaleWork");
    assert_eq!(
        SubmitError::TooSoon(TooSoonInfo { retryAfterNanos: n(5) }).show(),
        "TooSoon(TooSoonInfo { retryAfterNanos: Nat(5) })"
    );
}

#[test]
fn share_refusals_are_shown() {
    assert_eq!(ShareError::Anonymous.show(), "Anonymous");
    assert_eq!(ShareError::BelowShareTarget.show(), "BelowShareTarget");
    assert_eq!(ShareError::DuplicateNonce.show(), "DuplicateNonce");
    assert_eq!(ShareError::StaleWork.show(), "StaleWork");
    assert_eq!(
        ShareError::TooSoon(TooSoonInfo { retryAfterNanos: n(300_000_000) }).show(),
        "TooSoon(TooSoonInfo { retryAfterNanos: Nat(300000000) })"
    );
}

#[test]
fn numbers_are_shown_as_candid_shows_them() {
    for value in [0, 7, 250_000_000, u64::MAX] {
        let info = TooSoonInfo { retryAfterNanos: n(value) };
        let shown = format!("TooSoonInfo {{ retryAfterNanos: {:?} }}", candid::Nat::from(value));
        assert_eq!(info.show(), shown);
    }
}

#[test]
fn tokens_are_sent_from_their_ledger() {
    assert_eq!(ledger_id("PIKO"), Some(PIKO_LEDGER_CANISTER_ID));
    assert_eq!(ledger_id("ICP"), Some(ICP_LEDGER_CANISTER_ID));
    assert_eq!(ledger_id("icp"), None);
    assert_eq!(ledger_id(""), None);
    for (token, ledger) in [("PIKO", PIKO), ("ICP", ICP)] {
        let call = send_token(token, " \t2vxsx-fae\u{2003}\n", "\u{a0}1_500 ").unwrap();
        checks(&call, &ledger, "icrc1_transfer", true);
        assert!(matches!(call.args, CallArgs::Transfer(a)
            if a.to.owner.bytes == [4] && a.amount.to_u64() == Some(1500)));
    }
}

#[test]
fn white_space_does_not_count() {
    let spaces: Vec<u32> = (0x9..=0xd)
        .chain([0x20, 0x85, 0xa0, 0x1680])
        .chain(0x2000..=0x200a)
        .chain([0x2028, 0x2029, 0x202f, 0x205f, 0x3000])
        .collect();
    assert_eq!(spaces.len(), 25);
    for code in (0..0x1_0000).chain([0x1_0000, 0xe_0020, 0x10_ffff]) {
        if let Some(c) = char::from_u32(code) {
            assert_eq!(send_token("ICP", &format!("{c}{OWNER_ID}{c}"), "1").is_ok(), spaces.contains(&code));
        }
    }
    assert!((0..=0x10_ffff)
        .filter_map(char::from_u32)
        .all(|c| c.is_whitespace() == spaces.contains(&(c as u32))));
}

#[test]
fn bad_transfers_are_refused_in_order() {
    let why = |token: &str, to: &str, amount: &str| send_token(token, to, amount).unwrap_err();
    assert_eq!(why("BTC", "", ""), "unknown token: BTC");
    let e = candid::Principal::from_text("x").unwrap_err();
    assert_eq!(why("ICP", " x ", ""), format!("invalid recipient: {e}"));
    assert_eq!(why("ICP", OWNER_ID, ""), "invalid amount: Cannot parse BigUint");
    assert_eq!(why("PIKO", OWNER_ID, "-1"), "invalid amount: Cannot parse BigUint");
    assert_eq!(why("PIKO", OWNER_ID, "1 2"), "invalid amount: Cannot parse BigUint");
    let e = || "e".to_string();
    assert_eq!(decide_send(Err(e()), Err(e()), Err(e())).unwrap_err(), "invalid recipient: e");
    assert_eq!(decide_send(Ok(owner()), Err(e()), Err(e())).unwrap_err(), "invalid amount: e");
    assert_eq!(decide_send(Ok(owner()), Ok(n(1)), Err(e())).unwrap_err(), "e");
    assert!(decide_send(Ok(owner()), Ok(n(1)), Ok(owner())).is_ok());
}

#[test]
fn commands_read_the_owner_first() {
    checks(&commands::get_icp_balance(OWNER_ID).unwrap(), &ICP, "icrc1_balance_of", false);
    checks(&commands::get_piko_balance(OWNER_ID).unwrap(), &PIKO, "icrc1_balance_of", false);
    checks(&commands::get_total_blocks_won(OWNER_ID).unwrap(), &MOTHER, "getMinerStats", false);
    checks(&commands::get_icp_allowance(OWNER_ID).unwrap(), &ICP, "icrc2_allowance", false);
    let call = commands::get_pool_icp_allowance(POOL_ID, OWNER_ID).unwrap();
    assert!(matches!(call.args, CallArgs::Allowance(a)
        if a.account.owner.bytes == [4] && a.spender.owner.bytes == POOL));
    let why = candid::Principal::from_text("me").unwrap_err().to_string();
    assert_eq!(commands::get_icp_balance("me").unwrap_err(), why);
    assert_eq!(commands::get_piko_balance("me").unwrap_err(), why);
    assert_eq!(commands::get_total_blocks_won("me").unwrap_err(), why);
    assert_eq!(commands::get_icp_allowance("me").unwrap_err(), why);
    assert_eq!(commands::get_pool_icp_allowance("you", "me").unwrap_err(), why);
}

#[test]
fn approval_commands_count_blocks() {
    let call = commands::approve_icp(&n(1_000_000), 25).unwrap();
    assert!(matches!(call.args, CallArgs::Approve(a)
        if a.amount.to_u64() == Some(25_250_000) && a.spender.owner.bytes == MOTHER));
    let call = commands::approve_icp_for_pool(POOL_ID, &n(1_000_000), 0).unwrap();
    assert!(matches!(call.args, CallArgs::Approve(a)
        if a.amount.to_u64() == Some(1_010_000) && a.spender.owner.bytes == POOL));
}

#[test]
fn mining_is_started_once() {
    for stop in [false, true] {
        let mut flags = Flags { running: false, stop };
        assert!(matches!(start_mining(&mut flags, OWNER_ID), Ok(Some(p)) if p.bytes == [4]));
        assert_eq!(flags, Flags { running: true, stop: false });
        flags.stop = stop;
        assert!(matches!(start_mining(&mut flags, OWNER_ID), Ok(None)));
        assert!(matches!(start_mining(&mut flags, "me"), Ok(None)));
        assert_eq!(flags, Flags { running: true, stop });
    }
}

#[test]
fn an_unreadable_owner_does_not_mine() {
    for stop in [false, true] {
        let mut flags = Flags { running: false, stop };
        let why = candid::Principal::from_text("me").unwrap_err().to_string();
        assert!(matches!(start_mining(&mut flags, "me"), Err(e) if e == why));
        assert_eq!(flags, Flags { running: true, stop });
    }
    let mut flags = Flags { running: false, stop: false };
    assert!(matches!(decide_start(&mut flags, Err("e".to_string())), Err(e) if e == "e"));
}

#[test]
fn saved_keys_are_loaded() {
    let raw: Vec<u8> = (0..32).collect();
    assert_eq!(key_from_file(&raw).unwrap().to_vec(), raw);
    let loaded = load_or_create_identity(&Some(raw.clone())).unwrap();
    assert_eq!(loaded.key.to_vec(), raw);
    assert!(!loaded.fresh);
    for length in [0, 31, 33] {
        let why = load_or_create_identity(&Some(vec![7; length])).unwrap_err();
        assert_eq!(why, "saved identity key file is corrupted (wrong length)");
    }
    assert_eq!((KEY_DIRECTORY, KEY_FILE), ("PikoNativeMiner", "identity.key"));
}

#[test]
fn missing_keys_are_drawn_at_random() {
    let drawn = fresh_key([9; 32]);
    assert_eq!((drawn.key, drawn.fresh), ([9; 32], true));
    let a = load_or_create_identity(&None).unwrap();
    let b = load_or_create_identity(&None).unwrap();
    assert!(a.fresh && b.fresh);
    assert_ne!(a.key, b.key);
    let again = load_or_create_identity(&Some(a.key.to_vec())).unwrap();
    assert_eq!(again.key, a.key);
    assert!(!again.fresh);
}

#[test]
fn key_file_is_for_its_owner_alone() {
    assert_eq!(restrict_to_owner(true), Some(0o600));
    assert_eq!(restrict_to_owner(false), None);
}

#[test]
fn own_principal_is_that_of_the_key() {
    for byte in [0u8, 1, 0x42, 255] {
        let key = [byte; 32];
        let identity = ic_agent::identity::BasicIdentity::from_raw_key(&key);
        let sender = ic_agent::Identity::sender(&identity).unwrap();
        let text = key_principal_text(&key);
        assert_eq!(text, sender.to_text());
        let mut flags = Flags { running: false, stop: false };
        assert!(matches!(start_mining(&mut flags, &text), Ok(Some(p)) if p.bytes == sender.as_slice()));
    }
}
