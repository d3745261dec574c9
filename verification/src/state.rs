use anchor_lang::prelude::Pubkey;
use vstd::prelude::*;

verus! {

/// An earlier, flat layout of a vault account: the sale parameters are kept
/// as plain fields and the periods are counted in blocks.
#[derive(Clone, Copy, Debug)]
pub struct RealboxVaultState {
    pub owner_address: Pubkey,
    pub vault_id: u64,
    pub realx: u64,
    pub base_token: u64,
    pub public_unit_price: u64,
    pub min_supply: u64,
    pub max_supply: u64,
    pub private_start_block: u64,
    pub public_start_block: u64,
    pub end_block: u64,
}

} // verus!
