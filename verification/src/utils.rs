use vstd::prelude::*;

verus! {

/// The address of a Solana account (`anchor_lang::prelude::Pubkey`),
/// carried through the vault state and never looked into.
#[verifier::external_type_specification]
#[verifier::external_body]
pub struct ExPubkey(anchor_lang::prelude::Pubkey);

/// The way a purchase reached the vault.
///
/// `DirectOnchain` purchases were paid in base token on chain; the other two
/// are recorded by an agent (`DirectOffchain`: paid outside the chain,
/// `Indirect`: vault tokens minted to the agent's account at purchase time).
#[derive(Clone, Copy, PartialEq, Eq, Structural, Debug)]
pub enum SalesChannels {
    DirectOnchain,
    DirectOffchain,
    Indirect,
}

/// Life cycle of a crowdfunding vault.
#[derive(Clone, Copy, PartialEq, Eq, Structural, Debug)]
pub enum CrowdFundingState {
    Uninitialized,
    Initialized,
    PrivateStarted,
    PublicStarted,
    Ended,
    Finalized,
    Canceled,
    Unfrozen,
}

/// Lock state of the vault token.
#[derive(Clone, Copy, PartialEq, Eq, Structural, Debug)]
pub enum TokenState {
    /// Token account is unlocked; operations are allowed on this account.
    Unlocked,
    /// Token account has been locked; no operations are allowed on this account.
    Locked,
    /// Token account has a `Sale` delegate set; operations are restricted.
    Listed,
}

/// A channel through which an agent may record purchases and returns.
pub open spec fn is_agent_channel(channel: SalesChannels) -> bool {
    channel == SalesChannels::Indirect || channel == SalesChannels::DirectOffchain
}

} // verus!
