use vstd::prelude::*;
use anchor_lang::prelude::Pubkey;

verus! {

/// `anchor_lang::prelude::Pubkey`, the 32-byte address that names an owner.
///
/// The ledger stores and hands on such a value and never looks inside it, so
/// the type is declared without its contents and nothing is assumed of it.
#[verifier::external_type_specification]
#[verifier::external_body]
pub struct ExPubkey(Pubkey);

} // verus!
