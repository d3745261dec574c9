use vstd::prelude::*;

use crate::errors::ErrorCode;
use crate::schema::{
    lemma_amounts_bound, lemma_amounts_push, lemma_amounts_update, RealboxVaultState, TxInfo,
    TxInfoModel, VaultModel,
};
use crate::settlement::{
    claimed_for_owner, collected, delivered, is_settlement_of, lemma_settlement_accounts, lemma_fee_within_collected, lemma_settle_no_overmint,
    lemma_settle_prefix_none, lemma_settle_progress, lemma_split_whole, lemma_sums_prefix,
    plan_for, refunded, settle, settle_line, ClaimPlan, Settlement, TxSettlement,
};
use crate::utils::{is_agent_channel, CrowdFundingState, SalesChannels, TokenState};

verus! {

/// Outcome of the checks of a purchase recorded by an agent at time `now`.
pub open spec fn agent_buy_check(
    m: VaultModel,
    now: u64,
    amount: u64,
    channel: SalesChannels,
    uid: Seq<char>,
) -> Result<(), ErrorCode> {
    if uid.len() == 0 {
        Err(ErrorCode::UidMustNotEmpty)
    } else if !(m.current_state(now) == CrowdFundingState::PrivateStarted || m.current_state(now)
        == CrowdFundingState::PublicStarted) {
        Err(ErrorCode::InvalidState)
    } else if !is_agent_channel(channel) {
        Err(ErrorCode::InvalidSalesChannel)
    } else {
        m.purchase_check(amount)
    }
}

/// The vault after an agent's purchase: it is recorded, and an `Indirect`
/// purchase counts as processed at once.
pub open spec fn after_agent_buy(
    m: VaultModel,
    amount: u64,
    price: u64,
    channel: SalesChannels,
    uid: Seq<char>,
) -> VaultModel {
    let bought = m.with_purchase(amount, price, channel, uid);
    if channel == SalesChannels::Indirect {
        VaultModel { processed_token: (m.processed_token + amount) as u64, ..bought }
    } else {
        bought
    }
}

/// Records a purchase of `amount` vault tokens made through an agent at
/// time `now`, at the unit price whose bit pattern is `price`.
///
/// The user id must not be empty, the private or public sale must be
/// running, and the channel must be `Indirect` or `DirectOffchain`; then the
/// checks of [`RealboxVaultState::buy_token`] apply. On success the result
/// is the number of vault tokens to mint to the agent's token account:
/// `Some(amount)` for an `Indirect` purchase, `None` otherwise. On failure
/// the vault is unchanged.
pub fn agent_buy_token(
    realbox_vault: &mut RealboxVaultState,
    now: u64,
    amount: u64,
    price: u64,
    channel: SalesChannels,
    uid: String,
) -> (r: Result<Option<u64>, ErrorCode>)
    requires
        old(realbox_vault)@.wf(),
    ensures
        match agent_buy_check(old(realbox_vault)@, now, amount, channel, uid@) {
            Err(e) => r == Err::<Option<u64>, ErrorCode>(e) && final(realbox_vault)@ == old(
                realbox_vault,
            )@,
            Ok(_) => {
                &&& r == Ok::<Option<u64>, ErrorCode>(
                    if channel == SalesChannels::Indirect {
                        Some(amount)
                    } else {
                        None
                    },
                )
                &&& final(realbox_vault)@ == after_agent_buy(
                    old(realbox_vault)@,
                    amount,
                    price,
                    channel,
                    uid@,
                )
            },
        },
        final(realbox_vault)@.wf(),
{
    if uid.as_str().is_empty() {
        return Err(ErrorCode::UidMustNotEmpty);
    }
    let state = realbox_vault.current_state(now);
    if !(state == CrowdFundingState::PrivateStarted || state == CrowdFundingState::PublicStarted) {
        return Err(ErrorCode::InvalidState);
    }
    if !(channel == SalesChannels::Indirect || channel == SalesChannels::DirectOffchain) {
        return Err(ErrorCode::InvalidSalesChannel);
    }
    let ghost before = realbox_vault@;
    match realbox_vault.buy_token(amount, price, channel, uid) {
        Err(e) => {
            return Err(e);
        },
        Ok(()) => {},
    }
    proof {
        lemma_amounts_push(
            before.tx_infos,
            TxInfoModel { sender: before.owner_address, amount, unit_price: price, channel, uid: uid@ },
        );
        assert(realbox_vault.processed_token == before.processed_token);
        assert(realbox_vault.current_supply == before.current_supply + amount);
    }
    if channel == SalesChannels::Indirect {
        realbox_vault.processed_token = realbox_vault.processed_token + amount;
        Ok(Some(amount))
    } else {
        Ok(None)
    }
}

/// Returning, at the same time, the whole of a purchase an agent just
/// recorded through the `Indirect` channel is accepted and gives back the
/// processed count the vault had before the purchase; the purchase stays
/// recorded with amount zero, and the sold supply keeps the purchase.
pub proof fn lemma_return_undoes_indirect_buy(
    m: VaultModel,
    now: u64,
    amount: u64,
    price: u64,
    uid: Seq<char>,
)
    requires
        m.wf(),
        agent_buy_check(m, now, amount, SalesChannels::Indirect, uid) is Ok,
    ensures
        ({
            let bought = after_agent_buy(m, amount, price, SalesChannels::Indirect, uid);
            let returned = after_return(bought, amount, m.tx_infos.len() as int);
            &&& return_check(bought, now, amount, m.tx_infos.len() as int) is Ok
            &&& returned.processed_token == m.processed_token
            &&& returned.current_supply == m.current_supply + amount
            &&& returned.tx_infos == m.tx_infos.push(
                TxInfoModel {
                    sender: m.owner_address,
                    amount: 0,
                    unit_price: price,
                    channel: SalesChannels::Indirect,
                    uid,
                },
            )
        }),
{
    let bought = after_agent_buy(m, amount, price, SalesChannels::Indirect, uid);
    let returned = after_return(bought, amount, m.tx_infos.len() as int);
    assert(returned.tx_infos =~= m.tx_infos.push(
        TxInfoModel {
            sender: m.owner_address,
            amount: 0,
            unit_price: price,
            channel: SalesChannels::Indirect,
            uid,
        },
    ));
}

/// Outcome of finalizing the sale at time `now` with `total_supply` vault
/// tokens raised: the new vault, or the error.
pub open spec fn finalize_outcome(m: VaultModel, now: u64, total_supply: u64) -> Result<
    VaultModel,
    ErrorCode,
> {
    if m.current_state(now) != CrowdFundingState::Ended {
        Err(ErrorCode::InvalidState)
    } else if m.current_supply < m.sales_info.min_supply {
        Ok(VaultModel { state: CrowdFundingState::Canceled, total_supply: 0, ..m })
    } else if !(m.sales_info.min_supply <= total_supply) {
        Err(ErrorCode::InvalidSupply)
    } else if !(total_supply <= m.current_supply) {
        Err(ErrorCode::InvalidSupply)
    } else {
        Ok(
            VaultModel {
                state: CrowdFundingState::Finalized,
                total_supply,
                token_state: TokenState::Locked,
                ..m
            },
        )
    }
}

/// Finalizes the crowdfunding once the sale has ended: it is canceled when
/// fewer than the minimum supply were sold; otherwise it is finalized with
/// `total_supply` vault tokens raised, which must lie between the minimum
/// supply and the sold supply, and the vault token is locked. On failure the
/// vault is unchanged.
pub fn finalize(realbox_vault: &mut RealboxVaultState, now: u64, total_supply: u64) -> (r: Result<
    (),
    ErrorCode,
>)
    ensures
        match finalize_outcome(old(realbox_vault)@, now, total_supply) {
            Err(e) => r == Err::<(), ErrorCode>(e) && final(realbox_vault)@ == old(
                realbox_vault,
            )@,
            Ok(m) => r is Ok && final(realbox_vault)@ == m,
        },
        old(realbox_vault)@.wf() ==> final(realbox_vault)@.wf(),
{
    if !realbox_vault.only_state(CrowdFundingState::Ended, now) {
        return Err(ErrorCode::InvalidState);
    }
    let current_supply = realbox_vault.current_supply;
    let min_supply = realbox_vault.sales_info.min_supply;
    if current_supply < min_supply {
        realbox_vault.state = CrowdFundingState::Canceled;
        realbox_vault.total_supply = 0;
    } else {
        if !(min_supply <= total_supply) {
            return Err(ErrorCode::InvalidSupply);
        }
        if !(total_supply <= current_supply) {
            return Err(ErrorCode::InvalidSupply);
        }
        realbox_vault.state = CrowdFundingState::Finalized;
        realbox_vault.total_supply = total_supply;
        realbox_vault.token_state = TokenState::Locked;
    }
    Ok(())
}

/// Unlocks the vault token; the vault becomes `Unfrozen`.
pub fn unlock_token(realbox_vault: &mut RealboxVaultState) -> (r: Result<(), ErrorCode>)
    ensures
        r is Ok,
        final(realbox_vault)@ == (VaultModel {
            token_state: TokenState::Unlocked,
            state: CrowdFundingState::Unfrozen,
            ..old(realbox_vault)@
        }),
        old(realbox_vault)@.wf() ==> final(realbox_vault)@.wf(),
{
    realbox_vault.unlocked()
}

/// Outcome of the checks of returning `amount` vault tokens of the
/// purchase at index `idx` at time `now`.
pub open spec fn return_check(m: VaultModel, now: u64, amount: u64, idx: int) -> Result<
    (),
    ErrorCode,
> {
    if !(idx < m.tx_infos.len()) {
        Err(ErrorCode::InvalidTransactionId)
    } else if !(m.current_state(now) == CrowdFundingState::PrivateStarted || m.current_state(now)
        == CrowdFundingState::PublicStarted || m.current_state(now) == CrowdFundingState::Ended) {
        Err(ErrorCode::InvalidState)
    } else if !(amount > 0 && amount <= m.tx_infos[idx].amount) {
        Err(ErrorCode::InvalidAmount)
    } else if !is_agent_channel(m.tx_infos[idx].channel) {
        Err(ErrorCode::InvalidSalesChannel)
    } else {
        Ok(())
    }
}

/// The vault after `amount` tokens of the purchase at `idx` were returned:
/// the purchase shrinks by `amount`, and for an `Indirect` purchase the
/// processed count does too. The sold supply is left as it was.
pub open spec fn after_return(m: VaultModel, amount: u64, idx: int) -> VaultModel {
    let tx = m.tx_infos[idx];
    let shrunk = VaultModel {
        tx_infos: m.tx_infos.update(idx, TxInfoModel { amount: (tx.amount - amount) as u64, ..tx }),
        ..m
    };
    if tx.channel == SalesChannels::Indirect {
        VaultModel { processed_token: (m.processed_token - amount) as u64, ..shrunk }
    } else {
        shrunk
    }
}

/// Takes back `amount` vault tokens of the purchase with id `tx_id`,
/// recorded by an agent, at time `now`.
///
/// The id must name a recorded purchase, the sale must be running or
/// ended, the amount must be positive and at most the purchase's amount,
/// and the purchase must have come through an agent channel. On success the
/// result is the number of vault tokens to burn from the agent's token
/// account: `Some(amount)` for an `Indirect` purchase, `None` otherwise. On
/// failure the vault is unchanged.
pub fn agent_return_token(realbox_vault: &mut RealboxVaultState, now: u64, amount: u64, tx_id: u16) -> (r:
    Result<Option<u64>, ErrorCode>)
    requires
        old(realbox_vault)@.wf(),
    ensures
        match return_check(old(realbox_vault)@, now, amount, tx_id as int) {
            Err(e) => r == Err::<Option<u64>, ErrorCode>(e) && final(realbox_vault)@ == old(
                realbox_vault,
            )@,
            Ok(_) => {
                &&& r == Ok::<Option<u64>, ErrorCode>(
                    if old(realbox_vault)@.tx_infos[tx_id as int].channel
                        == SalesChannels::Indirect {
                        Some(amount)
                    } else {
                        None
                    },
                )
                &&& final(realbox_vault)@ == after_return(
                    old(realbox_vault)@,
                    amount,
                    tx_id as int,
                )
            },
        },
        final(realbox_vault)@.wf(),
{
    let idx = tx_id as usize;
    let state = realbox_vault.current_state(now);
    if !(idx < realbox_vault.tx_infos.len()) {
        return Err(ErrorCode::InvalidTransactionId);
    }
    if !(state == CrowdFundingState::PrivateStarted || state == CrowdFundingState::PublicStarted
        || state == CrowdFundingState::Ended) {
        return Err(ErrorCode::InvalidState);
    }
    let tx_amount = realbox_vault.tx_infos[idx].amount;
    let tx_channel = realbox_vault.tx_infos[idx].channel;
    if !(amount > 0 && amount <= tx_amount) {
        return Err(ErrorCode::InvalidAmount);
    }
    if !(tx_channel == SalesChannels::Indirect || tx_channel == SalesChannels::DirectOffchain) {
        return Err(ErrorCode::InvalidSalesChannel);
    }
    let ghost before = realbox_vault@;
    let ghost old_txs = realbox_vault.tx_infos@;
    proof {
        lemma_amounts_bound(before.tx_infos, idx as int);
    }
    realbox_vault.tx_infos[idx].amount = tx_amount - amount;
    proof {
        let new_tx = TxInfoModel { amount: (tx_amount - amount) as u64, ..before.tx_infos[idx as int] };
        assert(realbox_vault.tx_infos@.map_values(|t: TxInfo| t@) =~= before.tx_infos.update(
            idx as int,
            new_tx,
        ));
        lemma_amounts_update(before.tx_infos, idx as int, new_tx);
    }
    if tx_channel == SalesChannels::Indirect {
        realbox_vault.processed_token = realbox_vault.processed_token - amount;
        Ok(Some(amount))
    } else {
        Ok(None)
    }
}

/// Settles the purchases once the crowdfunding is finalized at time `now`.
///
/// Purchases are taken in order against the total supply: each is claimed
/// while it fits, split where it straddles the total, and refunded beyond
/// it (see [`settle`]). The vault's processed count becomes the settlement's.
/// The result is `Err(InvalidState)` unless the crowdfunding is finalized,
/// and `Ok(None)` when a count leaves the `u64` range, in which cases the
/// vault is unchanged.
pub fn claim_or_refund(realbox_vault: &mut RealboxVaultState, now: u64) -> (r: Result<
    Option<Settlement>,
    ErrorCode,
>)
    ensures
        old(realbox_vault)@.current_state(now) != CrowdFundingState::Finalized ==> r == Err::<
            Option<Settlement>,
            ErrorCode,
        >(ErrorCode::InvalidState) && final(realbox_vault)@ == old(realbox_vault)@,
        old(realbox_vault)@.current_state(now) == CrowdFundingState::Finalized ==> match settle(
            old(realbox_vault)@.tx_infos,
            old(realbox_vault)@.processed_token,
            old(realbox_vault)@.total_supply,
        ) {
            None => r matches Ok(None) && final(realbox_vault)@ == old(realbox_vault)@,
            Some(acc) => r matches Ok(Some(s)) && is_settlement_of(
                s,
                old(realbox_vault)@.tx_infos,
                old(realbox_vault)@.processed_token,
                old(realbox_vault)@.total_supply,
            ) && final(realbox_vault)@ == (VaultModel {
                processed_token: acc.0 as u64,
                ..old(realbox_vault)@
            }),
        },
        r matches Ok(Some(s)) ==> {
            &&& s.processed_token == old(realbox_vault).processed_token + delivered(
                old(realbox_vault)@.tx_infos,
                s.lines@,
            )
            &&& s.total_claim_token == claimed_for_owner(s.lines@)
            &&& s.total_claim_token == 0 || old(realbox_vault).processed_token
                + s.total_claim_token <= old(realbox_vault).total_supply
            &&& forall|i: int|
                0 <= i < s.lines@.len() ==> #[trigger] s.lines@[i].claim_token
                    + s.lines@[i].refund_token == old(realbox_vault)@.tx_infos[i].amount
        },
        old(realbox_vault)@.wf() ==> final(realbox_vault)@.wf(),
{
    if !realbox_vault.only_state(CrowdFundingState::Finalized, now) {
        return Err(ErrorCode::InvalidState);
    }
    let total_supply = realbox_vault.total_supply;
    let start = realbox_vault.processed_token;
    let mut processed_token = start;
    let mut total_claim_token: u64 = 0;
    let mut lines: Vec<TxSettlement> = Vec::new();
    let n = realbox_vault.tx_infos.len();
    let ghost txs = realbox_vault@.tx_infos;
    proof {
        assert(txs.take(0) =~= Seq::<TxInfoModel>::empty());
    }
    let mut i: usize = 0;
    while i < n
        invariant
            n == txs.len(),
            realbox_vault@ == old(realbox_vault)@,
            old(realbox_vault)@.current_state(now) == CrowdFundingState::Finalized,
            start == old(realbox_vault).processed_token,
            total_supply == old(realbox_vault).total_supply,
            txs == realbox_vault@.tx_infos,
            realbox_vault.tx_infos@.len() == n,
            i <= n,
            settle(txs.take(i as int), start, total_supply) == Some(
                (processed_token as int, total_claim_token as int),
            ),
            lines@.len() == i,
            forall|j: int| 0 <= j < i ==> #[trigger] lines@[j] == settle_line(txs, start, total_supply, j),
        decreases n - i,
    {
        let tx = &realbox_vault.tx_infos[i];
        let amount = tx.amount;
        let channel = tx.channel;
        proof {
            assert(txs.take(i + 1).drop_last() =~= txs.take(i as int));
            assert(txs.take(i + 1).last() == txs[i as int]);
        }
        if amount > u64::MAX - processed_token {
            proof {
                lemma_settle_prefix_none(txs, start, total_supply, i + 1);
            }
            return Ok(None);
        }
        let claim_token;
        let refund_token;
        if processed_token + amount <= total_supply {
            claim_token = amount;
            refund_token = 0;
        } else if processed_token < total_supply {
            claim_token = total_supply - processed_token;
            refund_token = amount - claim_token;
        } else {
            claim_token = 0;
            refund_token = amount;
        }
        lines.push(
            TxSettlement {
                channel,
                unit_price: tx.unit_price,
                claim_token,
                refund_token,
                claim_value: 0,
                refund_value: 0,
            },
        );
        if claim_token > 0 && channel != SalesChannels::Indirect {
            if claim_token > u64::MAX - total_claim_token {
                proof {
                    lemma_settle_prefix_none(txs, start, total_supply, i + 1);
                }
                return Ok(None);
            }
            total_claim_token = total_claim_token + claim_token;
            processed_token = processed_token + amount;
        }
        i = i + 1;
    }
    proof {
        assert(txs.take(n as int) =~= txs);
        lemma_settle_progress(txs, start, total_supply);
        lemma_settle_no_overmint(txs, start, total_supply);
        assert forall|j: int| 0 <= j < n implies #[trigger] lines@[j].claim_token
            + lines@[j].refund_token == txs[j].amount by {
            if settle(txs.take(j), start, total_supply) is None {
                lemma_settle_prefix_none(txs, start, total_supply, j);
            }
            lemma_settle_progress(txs.take(j), start, total_supply);
            lemma_split_whole(
                settle(txs.take(j), start, total_supply).unwrap().0,
                txs[j].amount as int,
                total_supply as int,
            );
        }
    }
    realbox_vault.processed_token = processed_token;
    let settlement = Settlement { lines, total_claim_token, processed_token };
    proof {
        lemma_settlement_accounts(settlement, txs, start, total_supply);
    }
    Ok(Some(settlement))
}

/// The transfers that close `settlement` for the vault: the treasury fee on
/// the collected value, the mint of the claimed vault tokens, and the
/// refund. `None` when a sum or the fee product leaves the `u64` range.
/// With a fee of at most 100% the fee never exceeds the collected value.
pub fn claim_payments(realbox_vault: &RealboxVaultState, settlement: &Settlement) -> (r: Option<
    ClaimPlan,
>)
    ensures
        r == plan_for(settlement.lines@, settlement.total_claim_token, realbox_vault.treasury_fee),
        r matches Some(plan) ==> (plan.fee_transfer matches Some(fee) ==> realbox_vault.treasury_fee
            <= 10000 ==> fee <= collected(settlement.lines@)),
{
    let lines = &settlement.lines;
    let n = lines.len();
    let mut collect_amount: u64 = 0;
    let mut total_refund_token: u64 = 0;
    let mut i: usize = 0;
    proof {
        assert(lines@.take(0) =~= Seq::<TxSettlement>::empty());
    }
    while i < n
        invariant
            n == lines@.len(),
            lines@ == settlement.lines@,
            i <= n,
            collect_amount == collected(lines@.take(i as int)),
            total_refund_token == refunded(lines@.take(i as int)),
        decreases n - i,
    {
        let line = lines[i];
        proof {
            assert(lines@.take(i + 1).drop_last() =~= lines@.take(i as int));
            assert(lines@.take(i + 1).last() == line);
            lemma_sums_prefix(lines@, i + 1);
            lemma_sums_prefix(lines@, i as int);
        }
        if line.refund_token > 0 && line.channel == SalesChannels::DirectOnchain {
            if line.refund_value > u64::MAX - total_refund_token {
                return None;
            }
            total_refund_token = total_refund_token + line.refund_value;
        }
        if line.claim_token > 0 && line.channel == SalesChannels::DirectOnchain {
            if line.claim_value > u64::MAX - collect_amount {
                return None;
            }
            collect_amount = collect_amount + line.claim_value;
        }
        i = i + 1;
    }
    proof {
        assert(lines@.take(n as int) =~= lines@);
    }
    let treasury_fee = realbox_vault.treasury_fee;
    let mut fee_transfer: Option<u64> = None;
    if collect_amount > 0 && treasury_fee > 0 {
        match collect_amount.checked_mul(treasury_fee) {
            None => {
                return None;
            },
            Some(product) => {
                fee_transfer = Some(product / 10000);
                proof {
                    if treasury_fee <= 10000 {
                        lemma_fee_within_collected(collect_amount as int, treasury_fee as int);
                    }
                }
            },
        }
    }
    let refund_transfer = if total_refund_token > 0 {
        Some(total_refund_token)
    } else {
        None
    };
    Some(ClaimPlan { fee_transfer, mint_amount: settlement.total_claim_token, refund_transfer })
}

} // verus!
