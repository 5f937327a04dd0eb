//! Principals: who calls a canister, and which canister is called.

use vstd::prelude::*;

verus! {

/// The most bytes that a principal has.
pub const MAX_PRINCIPAL_BYTES: usize = 29;

/// A principal, held as its bytes. Its view is the bytes.
#[derive(Debug)]
pub struct Principal {
    pub bytes: Vec<u8>,
}

impl View for Principal {
    type V = Seq<u8>;

    open spec fn view(&self) -> Seq<u8> {
        self.bytes@
    }
}

/// What `candid::Principal::from_text` makes of a text: the bytes of the principal,
/// or the text of the error.
pub uninterp spec fn principal_of_text(text: Seq<char>) -> Result<Seq<u8>, Seq<char>>;

/// What `candid::Principal::to_text` makes of the bytes of a principal.
pub uninterp spec fn text_of_principal(bytes: Seq<u8>) -> Seq<char>;

/// Whether `text` is read as the principal with these bytes.
pub open spec fn reads_as(text: Seq<char>, bytes: Seq<u8>) -> bool {
    principal_of_text(text) matches Ok(read) && read == bytes
}

/// The result of reading a principal, by its views.
pub open spec fn seen(result: Result<Vec<u8>, String>) -> Result<Seq<u8>, Seq<char>> {
    match result {
        Ok(bytes) => Ok(bytes@),
        Err(e) => Err(e@),
    }
}

/// Calls `candid::Principal::from_text`, named here by `principal_of_text`: the bytes,
/// 29 at most, or the error's text. Nothing is said of which texts are accepted.
#[verifier::external_body]
fn bytes_from_text(text: &str) -> (result: Result<Vec<u8>, String>)
    ensures
        seen(result) == principal_of_text(text@),
        result matches Ok(bytes) ==> bytes@.len() <= MAX_PRINCIPAL_BYTES,
{
    candid::Principal::from_text(text).map(|p| p.as_slice().to_vec()).map_err(|e| e.to_string())
}

/// Calls `candid::Principal::to_text`, named here by `text_of_principal`. The text is
/// one that `candid::Principal::from_text` reads as the same principal.
#[verifier::external_body]
fn text_from_bytes(bytes: &Vec<u8>) -> (text: String)
    requires
        bytes@.len() <= MAX_PRINCIPAL_BYTES,
    ensures
        text@ == text_of_principal(bytes@),
        reads_as(text@, bytes@),
{
    candid::Principal::from_slice(bytes).to_text()
}

impl Principal {
    /// A principal is not longer than principals are.
    pub open spec fn wf(self) -> bool {
        self.bytes@.len() <= MAX_PRINCIPAL_BYTES
    }

    /// Reads a principal.
    pub fn from_text(text: &str) -> (result: Result<Principal, String>)
        ensures
            match result {
                Ok(p) => reads_as(text@, p@) && p.wf(),
                Err(e) => principal_of_text(text@) matches Err(why) && why == e@,
            },
    {
        match bytes_from_text(text) {
            Ok(bytes) => Ok(Principal { bytes }),
            Err(e) => Err(e),
        }
    }

    /// The principal as text, which `from_text` reads as the same principal.
    pub fn to_text(&self) -> (text: String)
        requires
            self.wf(),
        ensures
            text@ == text_of_principal(self@),
            reads_as(text@, self@),
    {
        text_from_bytes(&self.bytes)
    }
}

impl Clone for Principal {
    fn clone(&self) -> (p: Principal)
        ensures
            p@ == self@,
    {
        let bytes = self.bytes.clone();
        proof {
            assert(bytes@ =~= self.bytes@);
        }
        Principal { bytes }
    }
}

/// A text is read as one principal at most, and as none where it is refused.
pub proof fn a_text_reads_as_one_principal(text: Seq<char>, bytes: Seq<u8>)
    ensures
        reads_as(text, bytes) <==> principal_of_text(text) == Ok::<Seq<u8>, Seq<char>>(bytes),
{
}

} // verus!
