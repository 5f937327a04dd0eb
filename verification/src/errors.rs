//! The texts in which a refusal is shown.

use crate::natural::Natural;
use crate::text::{decimal, decimal_u64, join3, join5};
use crate::types::{
    ApproveError, ShareError, SubmitError, TooSoonInfo, TransferError, TransferFromError,
};
use vstd::prelude::*;
use vstd::string::*;

verus! {

/// What `{:?}` makes of a string.
pub uninterp spec fn quoted(s: Seq<char>) -> Seq<char>;

/// Calls `format!` with `{:?}` on a string, named here by `quoted`: the string in
/// quotation marks, with escapes. Nothing is said of which characters are escaped.
#[verifier::external_body]
fn quote(s: &str) -> (q: String)
    ensures
        q@ == quoted(s@),
{
    format!("{:?}", s)
}

/// A number of any size inside the text of a refusal.
pub open spec fn shown_natural(n: nat) -> Seq<char> {
    "Nat("@ + decimal(n) + ")"@
}

/// Shows a number of any size.
fn show_natural(n: &Natural) -> (s: String)
    ensures
        s@ == shown_natural(n@),
{
    join3("Nat(", n.to_decimal().as_str(), ")")
}

impl TooSoonInfo {
    /// The text in which the waiting time is shown.
    pub open spec fn shown(self) -> Seq<char> {
        "TooSoonInfo { retryAfterNanos: "@ + shown_natural(self.retryAfterNanos@) + " }"@
    }

    /// Shows the waiting time.
    pub fn show(&self) -> (s: String)
        ensures
            s@ == self.shown(),
    {
        join3("TooSoonInfo { retryAfterNanos: ", show_natural(&self.retryAfterNanos).as_str(), " }")
    }
}

impl TransferFromError {
    /// The text in which the refusal is shown.
    pub open spec fn shown(self) -> Seq<char> {
        match self {
            TransferFromError::BadBurn { min_burn_amount } => "BadBurn { min_burn_amount: "@ + shown_natural(min_burn_amount@) + " }"@,
            TransferFromError::BadFee { expected_fee } => "BadFee { expected_fee: "@ + shown_natural(expected_fee@) + " }"@,
            TransferFromError::CreatedInFuture { ledger_time } => "CreatedInFuture { ledger_time: "@ + decimal(ledger_time as nat) + " }"@,
            TransferFromError::Duplicate { duplicate_of } => "Duplicate { duplicate_of: "@ + shown_natural(duplicate_of@) + " }"@,
            TransferFromError::GenericError { error_code, message } => "GenericError { error_code: "@
                + shown_natural(error_code@) + ", message: "@ + quoted(message@) + " }"@,
            TransferFromError::InsufficientAllowance { allowance } => "InsufficientAllowance { allowance: "@ + shown_natural(allowance@) + " }"@,
            TransferFromError::InsufficientFunds { balance } => "InsufficientFunds { balance: "@ + shown_natural(balance@) + " }"@,
            TransferFromError::TemporarilyUnavailable => "TemporarilyUnavailable"@,
            TransferFromError::TooOld => "TooOld"@,
        }
    }

    /// Shows the refusal.
    pub fn show(&self) -> (s: String)
        ensures
            s@ == self.shown(),
    {
        match self {
            TransferFromError::BadBurn { min_burn_amount } => join3(
                "BadBurn { min_burn_amount: ",
                show_natural(min_burn_amount).as_str(),
                " }",
            ),
            TransferFromError::BadFee { expected_fee } => join3(
                "BadFee { expected_fee: ",
                show_natural(expected_fee).as_str(),
                " }",
            ),
            TransferFromError::CreatedInFuture { ledger_time } => join3(
                "CreatedInFuture { ledger_time: ",
                decimal_u64(*ledger_time).as_str(),
                " }",
            ),
            TransferFromError::Duplicate { duplicate_of } => join3(
                "Duplicate { duplicate_of: ",
                show_natural(duplicate_of).as_str(),
                " }",
            ),
            TransferFromError::GenericError { error_code, message } => join5(
                "GenericError { error_code: ",
                show_natural(error_code).as_str(),
                ", message: ",
                quote(message.as_str()).as_str(),
                " }",
            ),
            TransferFromError::InsufficientAllowance { allowance } => join3(
                "InsufficientAllowance { allowance: ",
                show_natural(allowance).as_str(),
                " }",
            ),
            TransferFromError::InsufficientFunds { balance } => join3(
                "InsufficientFunds { balance: ",
                show_natural(balance).as_str(),
                " }",
            ),
            TransferFromError::TemporarilyUnavailable => String::from_str("TemporarilyUnavailable"),
            TransferFromError::TooOld => String::from_str("TooOld"),
        }
    }
}

impl SubmitError {
    /// The text in which the refusal is shown.
    pub open spec fn shown(self) -> Seq<char> {
        match self {
            SubmitError::Anonymous => "Anonymous"@,
            SubmitError::IcpFeeFailed(why) => "IcpFeeFailed("@ + why.shown() + ")"@,
            SubmitError::InvalidProof => "InvalidProof"@,
            SubmitError::NothingToClaim => "NothingToClaim"@,
            SubmitError::StaleWork => "StaleWork"@,
            SubmitError::TooSoon(why) => "TooSoon("@ + why.shown() + ")"@,
        }
    }

    /// Shows the refusal.
    pub fn show(&self) -> (s: String)
        ensures
            s@ == self.shown(),
    {
        match self {
            SubmitError::Anonymous => String::from_str("Anonymous"),
            SubmitError::IcpFeeFailed(why) => join3("IcpFeeFailed(", why.show().as_str(), ")"),
            SubmitError::InvalidProof => String::from_str("InvalidProof"),
            SubmitError::NothingToClaim => String::from_str("NothingToClaim"),
            SubmitError::StaleWork => String::from_str("StaleWork"),
            SubmitError::TooSoon(why) => join3("TooSoon(", why.show().as_str(), ")"),
        }
    }
}

impl ShareError {
    /// The text in which the refusal is shown.
    pub open spec fn shown(self) -> Seq<char> {
        match self {
            ShareError::Anonymous => "Anonymous"@,
            ShareError::BelowShareTarget => "BelowShareTarget"@,
            ShareError::DuplicateNonce => "DuplicateNonce"@,
            ShareError::StaleWork => "StaleWork"@,
            ShareError::TooSoon(why) => "TooSoon("@ + why.shown() + ")"@,
        }
    }

    /// Shows the refusal.
    pub fn show(&self) -> (s: String)
        ensures
            s@ == self.shown(),
    {
        match self {
            ShareError::Anonymous => String::from_str("Anonymous"),
            ShareError::BelowShareTarget => String::from_str("BelowShareTarget"),
            ShareError::DuplicateNonce => String::from_str("DuplicateNonce"),
            ShareError::StaleWork => String::from_str("StaleWork"),
            ShareError::TooSoon(why) => join3("TooSoon(", why.show().as_str(), ")"),
        }
    }
}

impl ApproveError {
    /// The text in which the refusal is shown.
    pub open spec fn shown(self) -> Seq<char> {
        match self {
            ApproveError::BadFee { expected_fee } => "BadFee { expected_fee: "@ + shown_natural(expected_fee@) + " }"@,
            ApproveError::InsufficientFunds { balance } => "InsufficientFunds { balance: "@ + shown_natural(balance@) + " }"@,
            ApproveError::AllowanceChanged { current_allowance } => "AllowanceChanged { current_allowance: "@ + shown_natural(current_allowance@) + " }"@,
            ApproveError::Expired { ledger_time } => "Expired { ledger_time: "@ + decimal(ledger_time as nat) + " }"@,
            ApproveError::TooOld => "TooOld"@,
            ApproveError::CreatedInFuture { ledger_time } => "CreatedInFuture { ledger_time: "@ + decimal(ledger_time as nat) + " }"@,
            ApproveError::Duplicate { duplicate_of } => "Duplicate { duplicate_of: "@ + shown_natural(duplicate_of@) + " }"@,
            ApproveError::TemporarilyUnavailable => "TemporarilyUnavailable"@,
            ApproveError::GenericError { error_code, message } => "GenericError { error_code: "@
                + shown_natural(error_code@) + ", message: "@ + quoted(message@) + " }"@,
        }
    }

    /// Shows the refusal.
    pub fn show(&self) -> (s: String)
        ensures
            s@ == self.shown(),
    {
        match self {
            ApproveError::BadFee { expected_fee } => join3(
                "BadFee { expected_fee: ",
                show_natural(expected_fee).as_str(),
                " }",
            ),
            ApproveError::InsufficientFunds { balance } => join3(
                "InsufficientFunds { balance: ",
                show_natural(balance).as_str(),
                " }",
            ),
            ApproveError::AllowanceChanged { current_allowance } => join3(
                "AllowanceChanged { current_allowance: ",
                show_natural(current_allowance).as_str(),
                " }",
            ),
            ApproveError::Expired { ledger_time } => join3(
                "Expired { ledger_time: ",
                decimal_u64(*ledger_time).as_str(),
                " }",
            ),
            ApproveError::TooOld => String::from_str("TooOld"),
            ApproveError::CreatedInFuture { ledger_time } => join3(
                "CreatedInFuture { ledger_time: ",
                decimal_u64(*ledger_time).as_str(),
                " }",
            ),
            ApproveError::Duplicate { duplicate_of } => join3(
                "Duplicate { duplicate_of: ",
                show_natural(duplicate_of).as_str(),
                " }",
            ),
            ApproveError::TemporarilyUnavailable => String::from_str("TemporarilyUnavailable"),
            ApproveError::GenericError { error_code, message } => join5(
                "GenericError { error_code: ",
                show_natural(error_code).as_str(),
                ", message: ",
                quote(message.as_str()).as_str(),
                " }",
            ),
        }
    }
}

impl TransferError {
    /// The text in which the refusal is shown.
    pub open spec fn shown(self) -> Seq<char> {
        match self {
            TransferError::BadFee { expected_fee } => "BadFee { expected_fee: "@ + shown_natural(expected_fee@) + " }"@,
            TransferError::BadBurn { min_burn_amount } => "BadBurn { min_burn_amount: "@ + shown_natural(min_burn_amount@) + " }"@,
            TransferError::InsufficientFunds { balance } => "InsufficientFunds { balance: "@ + shown_natural(balance@) + " }"@,
            TransferError::TooOld => "TooOld"@,
            TransferError::CreatedInFuture { ledger_time } => "CreatedInFuture { ledger_time: "@ + decimal(ledger_time as nat) + " }"@,
            TransferError::TemporarilyUnavailable => "TemporarilyUnavailable"@,
            TransferError::Duplicate { duplicate_of } => "Duplicate { duplicate_of: "@ + shown_natural(duplicate_of@) + " }"@,
            TransferError::GenericError { error_code, message } => "GenericError { error_code: "@
                + shown_natural(error_code@) + ", message: "@ + quoted(message@) + " }"@,
        }
    }

    /// Shows the refusal.
    pub fn show(&self) -> (s: String)
        ensures
            s@ == self.shown(),
    {
        match self {
            TransferError::BadFee { expected_fee } => join3(
                "BadFee { expected_fee: ",
                show_natural(expected_fee).as_str(),
                " }",
            ),
            TransferError::BadBurn { min_burn_amount } => join3(
                "BadBurn { min_burn_amount: ",
                show_natural(min_burn_amount).as_str(),
                " }",
            ),
            TransferError::InsufficientFunds { balance } => join3(
                "InsufficientFunds { balance: ",
                show_natural(balance).as_str(),
                " }",
            ),
            TransferError::TooOld => String::from_str("TooOld"),
            TransferError::CreatedInFuture { ledger_time } => join3(
                "CreatedInFuture { ledger_time: ",
                decimal_u64(*ledger_time).as_str(),
                " }",
            ),
            TransferError::TemporarilyUnavailable => String::from_str("TemporarilyUnavailable"),
            TransferError::Duplicate { duplicate_of } => join3(
                "Duplicate { duplicate_of: ",
                show_natural(duplicate_of).as_str(),
                " }",
            ),
            TransferError::GenericError { error_code, message } => join5(
                "GenericError { error_code: ",
                show_natural(error_code).as_str(),
                ", message: ",
                quote(message.as_str()).as_str(),
                " }",
            ),
        }
    }
}

/// Whether a text tells a number of any size between two others.
pub open spec fn tells_number(text: Seq<char>, before: Seq<char>, n: nat, after: Seq<char>) -> bool {
    text =~= before + "Nat("@ + decimal(n) + ")"@ + after
}

/// Whether a text tells an error code and a message.
pub open spec fn tells_error(text: Seq<char>, code: nat, message: Seq<char>) -> bool {
    text =~= "GenericError { error_code: "@ + "Nat("@ + decimal(code) + ")"@ + ", message: "@
        + quoted(message) + " }"@
}

/// A waiting time is told in full.
pub proof fn waiting_times_are_told(info: TooSoonInfo)
    ensures
        tells_number(
            info.shown(),
            "TooSoonInfo { retryAfterNanos: "@,
            info.retryAfterNanos@,
            " }"@,
        ),
{
}

/// Why a fee could not be collected is told by its name, with all that it carries.
pub proof fn fee_refusals_are_told(why: TransferFromError)
    ensures
        match why {
            TransferFromError::BadBurn { min_burn_amount: n } => tells_number(why.shown(), "BadBurn { min_burn_amount: "@, n@, " }"@),
            TransferFromError::BadFee { expected_fee: n } => tells_number(why.shown(), "BadFee { expected_fee: "@, n@, " }"@),
            TransferFromError::CreatedInFuture { ledger_time: t } => why.shown() == "CreatedInFuture { ledger_time: "@ + decimal(t as nat) + " }"@,
            TransferFromError::Duplicate { duplicate_of: n } => tells_number(why.shown(), "Duplicate { duplicate_of: "@, n@, " }"@),
            TransferFromError::GenericError { error_code, message } => tells_error(why.shown(), error_code@, message@),
            TransferFromError::InsufficientAllowance { allowance: n } => tells_number(why.shown(), "InsufficientAllowance { allowance: "@, n@, " }"@),
            TransferFromError::InsufficientFunds { balance: n } => tells_number(why.shown(), "InsufficientFunds { balance: "@, n@, " }"@),
            TransferFromError::TemporarilyUnavailable => why.shown() == "TemporarilyUnavailable"@,
            TransferFromError::TooOld => why.shown() == "TooOld"@,
        },
{
}

/// Why a proof was not accepted is told by its name, with all that it carries.
pub proof fn proof_refusals_are_told(why: SubmitError)
    ensures
        match why {
            SubmitError::Anonymous => why.shown() == "Anonymous"@,
            SubmitError::IcpFeeFailed(fee) => why.shown() == "IcpFeeFailed("@ + fee.shown() + ")"@,
            SubmitError::InvalidProof => why.shown() == "InvalidProof"@,
            SubmitError::NothingToClaim => why.shown() == "NothingToClaim"@,
            SubmitError::StaleWork => why.shown() == "StaleWork"@,
            SubmitError::TooSoon(info) => tells_number(why.shown(), "TooSoon("@ + "TooSoonInfo { retryAfterNanos: "@, info.retryAfterNanos@, " }"@ + ")"@),
        },
{
}

/// Why a share was not taken is told by its name, with all that it carries.
pub proof fn share_refusals_are_told(why: ShareError)
    ensures
        match why {
            ShareError::Anonymous => why.shown() == "Anonymous"@,
            ShareError::BelowShareTarget => why.shown() == "BelowShareTarget"@,
            ShareError::DuplicateNonce => why.shown() == "DuplicateNonce"@,
            ShareError::StaleWork => why.shown() == "StaleWork"@,
            ShareError::TooSoon(info) => tells_number(why.shown(), "TooSoon("@ + "TooSoonInfo { retryAfterNanos: "@, info.retryAfterNanos@, " }"@ + ")"@),
        },
{
}

/// Why an approval was refused is told by its name, with all that it carries.
pub proof fn approval_refusals_are_told(why: ApproveError)
    ensures
        match why {
            ApproveError::BadFee { expected_fee: n } => tells_number(why.shown(), "BadFee { expected_fee: "@, n@, " }"@),
            ApproveError::InsufficientFunds { balance: n } => tells_number(why.shown(), "InsufficientFunds { balance: "@, n@, " }"@),
            ApproveError::AllowanceChanged { current_allowance: n } => tells_number(why.shown(), "AllowanceChanged { current_allowance: "@, n@, " }"@),
            ApproveError::Expired { ledger_time: t } => why.shown() == "Expired { ledger_time: "@ + decimal(t as nat) + " }"@,
            ApproveError::TooOld => why.shown() == "TooOld"@,
            ApproveError::CreatedInFuture { ledger_time: t } => why.shown() == "CreatedInFuture { ledger_time: "@ + decimal(t as nat) + " }"@,
            ApproveError::Duplicate { duplicate_of: n } => tells_number(why.shown(), "Duplicate { duplicate_of: "@, n@, " }"@),
            ApproveError::TemporarilyUnavailable => why.shown() == "TemporarilyUnavailable"@,
            ApproveError::GenericError { error_code, message } => tells_error(why.shown(), error_code@, message@),
        },
{
}

/// Why a transfer was refused is told by its name, with all that it carries.
pub proof fn transfer_refusals_are_told(why: TransferError)
    ensures
        match why {
            TransferError::BadFee { expected_fee: n } => tells_number(why.shown(), "BadFee { expected_fee: "@, n@, " }"@),
            TransferError::BadBurn { min_burn_amount: n } => tells_number(why.shown(), "BadBurn { min_burn_amount: "@, n@, " }"@),
            TransferError::InsufficientFunds { balance: n } => tells_number(why.shown(), "InsufficientFunds { balance: "@, n@, " }"@),
            TransferError::TooOld => why.shown() == "TooOld"@,
            TransferError::CreatedInFuture { ledger_time: t } => why.shown() == "CreatedInFuture { ledger_time: "@ + decimal(t as nat) + " }"@,
            TransferError::TemporarilyUnavailable => why.shown() == "TemporarilyUnavailable"@,
            TransferError::Duplicate { duplicate_of: n } => tells_number(why.shown(), "Duplicate { duplicate_of: "@, n@, " }"@),
            TransferError::GenericError { error_code, message } => tells_error(why.shown(), error_code@, message@),
        },
{
}

} // verus!
