use vstd::prelude::*;

verus! {

/// Declares `anchor_lang::prelude::Pubkey` (the runtime's 32-byte account
/// address, `solana_address::Address`) so that records and events can hold
/// one. Nothing is assumed of it: the library never looks inside an address,
/// it only stores and hands them on.
#[verifier::external_type_specification]
#[verifier::external_body]
pub struct ExPubkey(anchor_lang::prelude::Pubkey);

} // verus!
