use anchor_lang::prelude::Pubkey;
use vstd::prelude::*;

use crate::errors::ErrorCode;
use crate::utils::{CrowdFundingState, SalesChannels, TokenState};

verus! {

/// One purchase recorded in the vault.
///
/// `unit_price` is the IEEE-754 bit pattern of the price per vault token,
/// in base token; the library never computes with it.
#[derive(Debug)]
pub struct TxInfo {
    pub sender: Pubkey,
    pub amount: u64,
    pub unit_price: u64,
    pub channel: SalesChannels,
    pub uid: String,
}

/// The mathematical value of a [`TxInfo`].
pub struct TxInfoModel {
    pub sender: Pubkey,
    pub amount: u64,
    pub unit_price: u64,
    pub channel: SalesChannels,
    pub uid: Seq<char>,
}

impl View for TxInfo {
    type V = TxInfoModel;

    open spec fn view(&self) -> TxInfoModel {
        TxInfoModel {
            sender: self.sender,
            amount: self.amount,
            unit_price: self.unit_price,
            channel: self.channel,
            uid: self.uid@,
        }
    }
}

impl TxInfo {
    /// Number of purchases the vault account is sized for.
    pub const MAX_ITEMS_AMOUNT: usize = 100;
}

/// Parameters of a token sale.
#[derive(Clone, Copy, PartialEq, Eq, Structural, Debug)]
pub struct SalesInfo {
    pub public_unit_price: u64,
    pub min_supply: u64,
    pub max_supply: u64,
    pub private_start_time: u64,
    pub public_start_time: u64,
    pub end_time: u64,
}


/// The state of one crowdfunding vault.
///
/// `tx_infos` lists the recorded purchases; `current_supply` counts the vault
/// tokens sold, `processed_token` those already delivered, and
/// `total_supply` the amount fixed when the sale was finalized.
/// `treasury_fee` is in basis points (100 = 1%).
#[derive(Debug)]
pub struct RealboxVaultState {
    pub vault_token_name: String,
    pub owner_address: Pubkey,
    pub token_program: Pubkey,
    pub mint_token: Pubkey,
    pub mint_base: Pubkey,
    pub realx: Pubkey,
    pub state: CrowdFundingState,
    pub tx_infos: Vec<TxInfo>,
    pub sales_info: SalesInfo,
    pub token_state: TokenState,
    pub processed_token: u64,
    pub current_supply: u64,
    pub total_supply: u64,
    pub treasury_address: Pubkey,
    pub treasury_fee: u64,
}

/// The mathematical value of a [`RealboxVaultState`].
pub struct VaultModel {
    pub vault_token_name: Seq<char>,
    pub owner_address: Pubkey,
    pub token_program: Pubkey,
    pub mint_token: Pubkey,
    pub mint_base: Pubkey,
    pub realx: Pubkey,
    pub state: CrowdFundingState,
    pub tx_infos: Seq<TxInfoModel>,
    pub sales_info: SalesInfo,
    pub token_state: TokenState,
    pub processed_token: u64,
    pub current_supply: u64,
    pub total_supply: u64,
    pub treasury_address: Pubkey,
    pub treasury_fee: u64,
}

impl View for RealboxVaultState {
    type V = VaultModel;

    open spec fn view(&self) -> VaultModel {
        VaultModel {
            vault_token_name: self.vault_token_name@,
            owner_address: self.owner_address,
            token_program: self.token_program,
            mint_token: self.mint_token,
            mint_base: self.mint_base,
            realx: self.realx,
            state: self.state,
            tx_infos: self.tx_infos@.map_values(|t: TxInfo| t@),
            sales_info: self.sales_info,
            token_state: self.token_state,
            processed_token: self.processed_token,
            current_supply: self.current_supply,
            total_supply: self.total_supply,
            treasury_address: self.treasury_address,
            treasury_fee: self.treasury_fee,
        }
    }
}

/// Sum of the amounts of all recorded purchases.
pub open spec fn total_amount(txs: Seq<TxInfoModel>) -> int
    decreases txs.len(),
{
    if txs.len() == 0 {
        0
    } else {
        total_amount(txs.drop_last()) + txs.last().amount
    }
}

/// Sum of the amounts of the purchases made through the `Indirect` channel.
pub open spec fn indirect_amount(txs: Seq<TxInfoModel>) -> int
    decreases txs.len(),
{
    if txs.len() == 0 {
        0
    } else {
        indirect_amount(txs.drop_last()) + if txs.last().channel == SalesChannels::Indirect {
            txs.last().amount as int
        } else {
            0
        }
    }
}

impl VaultModel {
    /// The invariant that every vault instruction keeps: sales stay within
    /// the maximum supply, the recorded purchases are covered by the sold
    /// supply, tokens minted to agents are counted as processed, until the
    /// sale is finalized or unfrozen no more is processed than sold, and the
    /// fee is at most 100%.
    pub open spec fn wf(self) -> bool {
        &&& self.current_supply <= self.sales_info.max_supply
        &&& total_amount(self.tx_infos) <= self.current_supply
        &&& indirect_amount(self.tx_infos) <= self.processed_token
        &&& self.state != CrowdFundingState::Finalized && self.state
            != CrowdFundingState::Unfrozen ==> self.processed_token <= self.current_supply
        &&& self.treasury_fee <= 10000
    }

    /// The state of the sale at time `now`: a vault that was initialized
    /// moves through the private sale, the public sale and the end of the
    /// sale as `now` passes the start times and the end time.
    pub open spec fn current_state(self, now: u64) -> CrowdFundingState {
        if self.state == CrowdFundingState::Initialized {
            if now >= self.sales_info.end_time {
                CrowdFundingState::Ended
            } else if now >= self.sales_info.public_start_time {
                CrowdFundingState::PublicStarted
            } else if now >= self.sales_info.private_start_time {
                CrowdFundingState::PrivateStarted
            } else {
                CrowdFundingState::Initialized
            }
        } else {
            self.state
        }
    }

    /// Outcome of the checks of a purchase of `amount` vault tokens.
    pub open spec fn purchase_check(self, amount: u64) -> Result<(), ErrorCode> {
        if amount == 0 {
            Err(ErrorCode::InvalidAmount)
        } else if amount > self.sales_info.max_supply - self.current_supply {
            Err(ErrorCode::AmountHigherRemainingSupply)
        } else {
            Ok(())
        }
    }

    /// The vault after a purchase was recorded: the purchase is appended,
    /// sent by the vault owner, and the sold supply grows by its amount.
    pub open spec fn with_purchase(
        self,
        amount: u64,
        price: u64,
        channel: SalesChannels,
        uid: Seq<char>,
    ) -> VaultModel {
        VaultModel {
            tx_infos: self.tx_infos.push(
                TxInfoModel { sender: self.owner_address, amount, unit_price: price, channel, uid },
            ),
            current_supply: (self.current_supply + amount) as u64,
            ..self
        }
    }
}

/// Position of a sale state on the way from `Initialized` to `Ended`.
pub open spec fn sale_phase(state: CrowdFundingState) -> int {
    match state {
        CrowdFundingState::Initialized => 0,
        CrowdFundingState::PrivateStarted => 1,
        CrowdFundingState::PublicStarted => 2,
        CrowdFundingState::Ended => 3,
        _ => 4,
    }
}

/// The sale only moves forward in time: a later time never gives an
/// earlier phase, and a vault whose recorded state is not `Initialized`
/// stays in that state at every time.
pub proof fn lemma_current_state_monotone(m: VaultModel, t1: u64, t2: u64)
    requires
        t1 <= t2,
    ensures
        sale_phase(m.current_state(t1)) <= sale_phase(m.current_state(t2)),
        m.state != CrowdFundingState::Initialized ==> m.current_state(t1) == m.state
            && m.current_state(t2) == m.state,
{
}

/// Appending a purchase adds its amount to the sums.
pub proof fn lemma_amounts_push(txs: Seq<TxInfoModel>, tx: TxInfoModel)
    ensures
        total_amount(txs.push(tx)) == total_amount(txs) + tx.amount,
        indirect_amount(txs.push(tx)) == indirect_amount(txs) + if tx.channel
            == SalesChannels::Indirect {
            tx.amount as int
        } else {
            0
        },
{
    assert(txs.push(tx).drop_last() =~= txs);
}

/// Replacing one purchase changes the sums by the difference of amounts.
pub proof fn lemma_amounts_update(txs: Seq<TxInfoModel>, i: int, tx: TxInfoModel)
    requires
        0 <= i < txs.len(),
    ensures
        total_amount(txs.update(i, tx)) == total_amount(txs) - txs[i].amount + tx.amount,
        indirect_amount(txs.update(i, tx)) == indirect_amount(txs) - (if txs[i].channel
            == SalesChannels::Indirect {
            txs[i].amount as int
        } else {
            0
        }) + (if tx.channel == SalesChannels::Indirect {
            tx.amount as int
        } else {
            0
        }),
    decreases txs.len(),
{
    if i < txs.len() - 1 {
        lemma_amounts_update(txs.drop_last(), i, tx);
        assert(txs.update(i, tx).drop_last() =~= txs.drop_last().update(i, tx));
    } else {
        assert(txs.update(i, tx).drop_last() =~= txs.drop_last());
    }
}

/// Each purchase is part of the sums.
pub proof fn lemma_amounts_bound(txs: Seq<TxInfoModel>, i: int)
    requires
        0 <= i < txs.len(),
    ensures
        txs[i].amount <= total_amount(txs),
        txs[i].channel == SalesChannels::Indirect ==> txs[i].amount <= indirect_amount(txs),
        0 <= indirect_amount(txs),
    decreases txs.len(),
{
    lemma_amounts_nonneg(txs.drop_last());
    if i < txs.len() - 1 {
        lemma_amounts_bound(txs.drop_last(), i);
    }
}

/// The sums over a prefix of the purchases are at most the sums over them
/// all.
pub proof fn lemma_amounts_prefix(txs: Seq<TxInfoModel>, i: int)
    requires
        0 <= i <= txs.len(),
    ensures
        total_amount(txs.take(i)) <= total_amount(txs),
        indirect_amount(txs.take(i)) <= indirect_amount(txs),
    decreases txs.len() - i,
{
    if i == txs.len() {
        assert(txs.take(i) =~= txs);
    } else {
        assert(txs.take(i + 1).drop_last() =~= txs.take(i));
        lemma_amounts_prefix(txs, i + 1);
    }
}

/// The sums are never negative.
pub proof fn lemma_amounts_nonneg(txs: Seq<TxInfoModel>)
    ensures
        0 <= indirect_amount(txs),
        0 <= total_amount(txs),
    decreases txs.len(),
{
    if txs.len() > 0 {
        lemma_amounts_nonneg(txs.drop_last());
    }
}

impl RealboxVaultState {
    /// Current state of the crowdfunding at time `now`.
    pub fn current_state(&self, now: u64) -> (s: CrowdFundingState)
        ensures
            s == self@.current_state(now),
    {
        let state = self.state;
        let private_start_time = self.sales_info.private_start_time;
        let public_start_time = self.sales_info.public_start_time;
        let end_time = self.sales_info.end_time;
        if state == CrowdFundingState::Initialized {
            if now >= end_time {
                return CrowdFundingState::Ended;
            }
            if now >= public_start_time {
                return CrowdFundingState::PublicStarted;
            }
            if now >= private_start_time {
                return CrowdFundingState::PrivateStarted;
            }
        }
        state
    }

    /// Whether the crowdfunding is in `state` at time `now`.
    pub fn only_state(&self, state: CrowdFundingState, now: u64) -> (b: bool)
        ensures
            b == (self@.current_state(now) == state),
    {
        self.current_state(now) == state
    }

    /// Records a purchase of `amount` vault tokens at the unit price whose
    /// bit pattern is `price`, sent by the vault owner, and adds the amount
    /// to the sold supply. Fails, leaving the vault unchanged, when the
    /// amount is zero or more than the supply that remains.
    pub fn buy_token(&mut self, amount: u64, price: u64, channel: SalesChannels, uid: String) -> (r:
        Result<(), ErrorCode>)
        requires
            amount > 0 ==> old(self).current_supply <= old(self).sales_info.max_supply,
        ensures
            r == old(self)@.purchase_check(amount),
            r is Ok ==> final(self)@ == old(self)@.with_purchase(amount, price, channel, uid@),
            r is Err ==> final(self)@ == old(self)@,
            old(self)@.wf() && channel != SalesChannels::Indirect ==> final(self)@.wf(),
    {
        if amount == 0 {
            return Err(ErrorCode::InvalidAmount);
        }
        if amount > self.sales_info.max_supply - self.current_supply {
            return Err(ErrorCode::AmountHigherRemainingSupply);
        }
        let tx = TxInfo { sender: self.owner_address, amount, unit_price: price, channel, uid };
        let ghost old_txs = self.tx_infos@;
        self.tx_infos.push(tx);
        self.current_supply = self.current_supply + amount;
        proof {
            assert(self.tx_infos@.map_values(|t: TxInfo| t@) =~= old_txs.map_values(
                |t: TxInfo| t@,
            ).push(tx@));
            lemma_amounts_push(old_txs.map_values(|t: TxInfo| t@), tx@);
        }
        Ok(())
    }

    /// Unlocks the vault token and moves the vault to `Unfrozen`.
    pub fn unlocked(&mut self) -> (r: Result<(), ErrorCode>)
        ensures
            r is Ok,
            final(self)@ == (VaultModel {
                token_state: TokenState::Unlocked,
                state: CrowdFundingState::Unfrozen,
                ..old(self)@
            }),
            old(self)@.wf() ==> final(self)@.wf(),
    {
        self.token_state = TokenState::Unlocked;
        self.state = CrowdFundingState::Unfrozen;
        Ok(())
    }

    /// Whether the vault satisfies the invariant that every instruction
    /// keeps ([`VaultModel::wf`]).
    pub fn check_consistent(&self) -> (b: bool)
        ensures
            b == self@.wf(),
    {
        if !(self.current_supply <= self.sales_info.max_supply) {
            return false;
        }
        if !(self.treasury_fee <= 10000) {
            return false;
        }
        let ghost txs = self@.tx_infos;
        let n = self.tx_infos.len();
        let mut total: u64 = 0;
        let mut indirect: u64 = 0;
        let mut i: usize = 0;
        proof {
            assert(txs.take(0) =~= Seq::<TxInfoModel>::empty());
        }
        while i < n
            invariant
                n == txs.len(),
                txs == self@.tx_infos,
                i <= n,
                total == total_amount(txs.take(i as int)),
                indirect == indirect_amount(txs.take(i as int)),
                total <= self.current_supply,
                indirect <= self.processed_token,
            decreases n - i,
        {
            let amount = self.tx_infos[i].amount;
            let channel = self.tx_infos[i].channel;
            proof {
                assert(txs.take(i + 1).drop_last() =~= txs.take(i as int));
                assert(txs.take(i + 1).last() == txs[i as int]);
                lemma_amounts_prefix(txs, i + 1);
            }
            if amount > self.current_supply - total {
                return false;
            }
            total = total + amount;
            if channel == SalesChannels::Indirect {
                if amount > self.processed_token - indirect {
                    return false;
                }
                indirect = indirect + amount;
            }
            i = i + 1;
        }
        proof {
            assert(txs.take(n as int) =~= txs);
        }
        self.state == CrowdFundingState::Finalized || self.state == CrowdFundingState::Unfrozen
            || self.processed_token <= self.current_supply
    }

    /// Whether the vault token is locked.
    pub fn check_locked(&self) -> (b: bool)
        ensures
            b == (self.token_state == TokenState::Locked),
    {
        self.token_state == TokenState::Locked
    }
}

} // verus!
