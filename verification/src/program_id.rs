//! The identifier under which the program is deployed, and its text form.

use vstd::prelude::*;

verus! {

/// The address of the deployed program, as raw bytes. In base58 it reads
/// `EKA5RypdCftvgUmDJKRfcVmFAnoNAHVdHida7XfSJRhB`.
pub const ID: [u8; 32] = [
    197, 206, 165, 182, 95, 253, 154, 31, 2, 126, 252, 167, 11, 124, 154, 134,
    99, 80, 43, 154, 239, 46, 10, 246, 230, 6, 33, 20, 51, 126, 36, 242,
];

/// The text that `Pubkey`'s `Debug` impl writes for the address made of the
/// given 32 bytes: its base58 encoding.
pub uninterp spec fn debug_text(bytes: Seq<u8>) -> Seq<char>;

/// Formats an address with `{:?}`, as `anchor_lang::prelude::Pubkey` (the
/// `Address` of `solana-address`) prints itself. The text depends on the
/// 32 bytes alone; the contract gives it the name [`debug_text`] and claims
/// nothing else of it.
#[verifier::external_body]
pub(crate) fn format_address(bytes: &[u8; 32]) -> (text: String)
    ensures
        text@ == debug_text(bytes@),
{
    format!("{:?}", anchor_lang::prelude::Pubkey::new_from_array(*bytes))
}

/// The program's identifier.
pub fn id() -> (bytes: [u8; 32])
    ensures
        bytes@ == ID@,
{
    ID
}

/// Whether `candidate` is the program's identifier.
pub fn check_id(candidate: &[u8; 32]) -> (same: bool)
    ensures
        same == (candidate@ == ID@),
{
    let mut i: usize = 0;
    while i < 32
        invariant
            i <= 32,
            forall|k: int| 0 <= k < i ==> candidate@[k] == ID@[k],
        decreases 32 - i,
    {
        if candidate[i] != ID[i] {
            return false;
        }
        i += 1;
    }
    assert(candidate@ =~= ID@);
    true
}

} // verus!
