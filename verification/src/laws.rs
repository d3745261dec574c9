//! What the vault instructions are for, stated over their inputs and
//! results.
use anchor_lang::prelude::Pubkey;
use vstd::prelude::*;

use crate::errors::ErrorCode;
use crate::instructions::realbox_vault::{
    after_agent_buy, after_return, agent_buy_check, finalize_outcome, return_check,
};
use crate::instructions::realbox_vault_factory::{deploy_check, deployed, DeployAccounts};
use crate::schema::{
    lemma_amounts_push, lemma_amounts_update, total_amount, SalesInfo, TxInfoModel, VaultModel,
};
use crate::utils::{CrowdFundingState, SalesChannels, TokenState};

verus! {

/// The private or the public sale is running.
pub open spec fn sale_running(state: CrowdFundingState) -> bool {
    state == CrowdFundingState::PrivateStarted || state == CrowdFundingState::PublicStarted
}

/// The sale clock of an initialized vault whose periods are in order: the
/// sale has ended exactly from the end time on, the public sale runs from
/// its start until the end, the private sale from its start until the public
/// one starts, and before that the vault is merely initialized.
pub proof fn lemma_sale_clock(m: VaultModel, now: u64)
    requires
        m.state == CrowdFundingState::Initialized,
        m.sales_info.private_start_time <= m.sales_info.public_start_time,
        m.sales_info.public_start_time < m.sales_info.end_time,
    ensures
        (m.current_state(now) == CrowdFundingState::Ended) <==> now >= m.sales_info.end_time,
        (m.current_state(now) == CrowdFundingState::PublicStarted) <==> (
        m.sales_info.public_start_time <= now < m.sales_info.end_time),
        (m.current_state(now) == CrowdFundingState::PrivateStarted) <==> (
        m.sales_info.private_start_time <= now < m.sales_info.public_start_time),
        (m.current_state(now) == CrowdFundingState::Initialized) <==> now
            < m.sales_info.private_start_time,
        sale_running(m.current_state(now)) <==> (m.sales_info.private_start_time <= now
            < m.sales_info.end_time),
{
}

/// A purchase is accepted exactly when its amount is positive and fits in
/// the remaining supply; a zero amount is refused with `InvalidAmount`, a
/// positive one that does not fit with `AmountHigherRemainingSupply`.
pub proof fn lemma_purchase_check(m: VaultModel, amount: u64)
    ensures
        m.purchase_check(amount) is Ok <==> (0 < amount && m.current_supply + amount
            <= m.sales_info.max_supply),
        amount == 0 ==> m.purchase_check(amount) == Err::<(), ErrorCode>(ErrorCode::InvalidAmount),
        amount > 0 && m.current_supply + amount > m.sales_info.max_supply ==> m.purchase_check(
            amount,
        ) == Err::<(), ErrorCode>(ErrorCode::AmountHigherRemainingSupply),
{
}

/// An agent's purchase is accepted exactly when the user id is not empty,
/// the sale is running, the channel is an agent channel and the amount is
/// positive and fits. The refusals come in that order: an empty user id
/// first, then a sale that is not running, then a channel other than
/// `Indirect` or `DirectOffchain`, then the amount.
pub proof fn lemma_agent_buy_check_exact(
    m: VaultModel,
    now: u64,
    amount: u64,
    channel: SalesChannels,
    uid: Seq<char>,
)
    ensures
        agent_buy_check(m, now, amount, channel, uid) is Ok <==> {
            &&& uid.len() > 0
            &&& sale_running(m.current_state(now))
            &&& (channel == SalesChannels::Indirect || channel == SalesChannels::DirectOffchain)
            &&& 0 < amount
            &&& m.current_supply + amount <= m.sales_info.max_supply
        },
        uid.len() == 0 ==> agent_buy_check(m, now, amount, channel, uid) == Err::<(), ErrorCode>(
            ErrorCode::UidMustNotEmpty,
        ),
        uid.len() > 0 && sale_running(m.current_state(now)) && channel
            == SalesChannels::DirectOnchain ==> agent_buy_check(m, now, amount, channel, uid)
            == Err::<(), ErrorCode>(ErrorCode::InvalidSalesChannel),
        uid.len() > 0 && sale_running(m.current_state(now)) && channel != SalesChannels::DirectOnchain
            ==> agent_buy_check(m, now, amount, channel, uid) == m.purchase_check(amount),
{
}

/// An agent's purchase, through any channel, is accepted only while the
/// private or public sale is running, with a non-empty user id, through an
/// agent channel, and for a positive amount within the remaining supply.
/// With a non-empty user id at any other time it is refused with
/// `InvalidState`.
pub proof fn lemma_agent_buy_only_during_sale(
    m: VaultModel,
    now: u64,
    amount: u64,
    channel: SalesChannels,
    uid: Seq<char>,
)
    ensures
        agent_buy_check(m, now, amount, channel, uid) is Ok ==> {
            &&& sale_running(m.current_state(now))
            &&& uid.len() > 0
            &&& (channel == SalesChannels::Indirect || channel == SalesChannels::DirectOffchain)
            &&& 0 < amount
            &&& m.current_supply + amount <= m.sales_info.max_supply
        },
        uid.len() > 0 && !sale_running(m.current_state(now)) ==> agent_buy_check(
            m,
            now,
            amount,
            channel,
            uid,
        ) == Err::<(), ErrorCode>(ErrorCode::InvalidState),
{
}

/// An accepted agent purchase appends exactly one purchase, sent by the
/// vault owner with the given amount, price, channel and user id, keeps the
/// recorded ones, raises the sold supply and the sum of purchases by the
/// amount, raises the processed count by the amount exactly for an
/// `Indirect` purchase, and changes nothing else.
pub proof fn lemma_agent_buy_effect(
    m: VaultModel,
    now: u64,
    amount: u64,
    price: u64,
    channel: SalesChannels,
    uid: Seq<char>,
)
    requires
        m.wf(),
        agent_buy_check(m, now, amount, channel, uid) is Ok,
    ensures
        ({
            let n = after_agent_buy(m, amount, price, channel, uid);
            let k = m.tx_infos.len();
            &&& n.tx_infos.len() == k + 1
            &&& forall|i: int| 0 <= i < k ==> #[trigger] n.tx_infos[i] == m.tx_infos[i]
            &&& n.tx_infos[k as int].sender == m.owner_address
            &&& n.tx_infos[k as int].amount == amount
            &&& n.tx_infos[k as int].unit_price == price
            &&& n.tx_infos[k as int].channel == channel
            &&& n.tx_infos[k as int].uid == uid
            &&& n.current_supply == m.current_supply + amount
            &&& total_amount(n.tx_infos) == total_amount(m.tx_infos) + amount
            &&& n.processed_token == m.processed_token + if channel == SalesChannels::Indirect {
                amount as int
            } else {
                0
            }
            &&& n.state == m.state
            &&& n.sales_info == m.sales_info
            &&& n.token_state == m.token_state
            &&& n.total_supply == m.total_supply
            &&& n.treasury_fee == m.treasury_fee
            &&& n.owner_address == m.owner_address
        }),
{
    let n = after_agent_buy(m, amount, price, channel, uid);
    lemma_amounts_push(
        m.tx_infos,
        TxInfoModel { sender: m.owner_address, amount, unit_price: price, channel, uid },
    );
}

/// A return of an agent's purchase is accepted only while the sale runs or
/// after it ended; at any other time, for a recorded purchase, it is
/// refused with `InvalidState`.
pub proof fn lemma_return_only_while_open(m: VaultModel, now: u64, amount: u64, idx: int)
    requires
        0 <= idx,
    ensures
        return_check(m, now, amount, idx) is Ok ==> {
            &&& idx < m.tx_infos.len()
            &&& (sale_running(m.current_state(now)) || m.current_state(now)
                == CrowdFundingState::Ended)
            &&& 0 < amount <= m.tx_infos[idx].amount
            &&& (m.tx_infos[idx].channel == SalesChannels::Indirect || m.tx_infos[idx].channel
                == SalesChannels::DirectOffchain)
        },
        idx < m.tx_infos.len() && !(sale_running(m.current_state(now)) || m.current_state(now)
            == CrowdFundingState::Ended) ==> return_check(m, now, amount, idx) == Err::<
            (),
            ErrorCode,
        >(ErrorCode::InvalidState),
{
}

/// A return is accepted exactly when it names a recorded purchase made
/// through an agent channel, the sale is running or has ended, and the
/// amount is positive and at most the purchase's amount. The refusals come
/// in order: an unknown purchase with `InvalidTransactionId`, the state with
/// `InvalidState`, the amount with `InvalidAmount`, a `DirectOnchain`
/// purchase with `InvalidSalesChannel`.
pub proof fn lemma_return_check_exact(m: VaultModel, now: u64, amount: u64, idx: int)
    requires
        0 <= idx,
    ensures
        return_check(m, now, amount, idx) is Ok <==> {
            &&& idx < m.tx_infos.len()
            &&& (sale_running(m.current_state(now)) || m.current_state(now)
                == CrowdFundingState::Ended)
            &&& 0 < amount <= m.tx_infos[idx].amount
            &&& m.tx_infos[idx].channel != SalesChannels::DirectOnchain
        },
        idx >= m.tx_infos.len() ==> return_check(m, now, amount, idx) == Err::<(), ErrorCode>(
            ErrorCode::InvalidTransactionId,
        ),
        idx < m.tx_infos.len() && (sale_running(m.current_state(now)) || m.current_state(now)
            == CrowdFundingState::Ended) && !(0 < amount <= m.tx_infos[idx].amount)
            ==> return_check(m, now, amount, idx) == Err::<(), ErrorCode>(ErrorCode::InvalidAmount),
        idx < m.tx_infos.len() && (sale_running(m.current_state(now)) || m.current_state(now)
            == CrowdFundingState::Ended) && 0 < amount <= m.tx_infos[idx].amount
            && m.tx_infos[idx].channel == SalesChannels::DirectOnchain ==> return_check(
            m,
            now,
            amount,
            idx,
        ) == Err::<(), ErrorCode>(ErrorCode::InvalidSalesChannel),
{
}

/// An accepted return takes exactly the returned amount off the purchase,
/// whatever its channel, and leaves the rest of it recorded; the other
/// purchases, the sold supply and the other fields stay; the sum of
/// purchases drops by the amount; the processed count drops by the amount
/// exactly for an `Indirect` purchase.
pub proof fn lemma_return_effect(m: VaultModel, now: u64, amount: u64, idx: int)
    requires
        m.wf(),
        0 <= idx,
        return_check(m, now, amount, idx) is Ok,
    ensures
        ({
            let n = after_return(m, amount, idx);
            let old_tx = m.tx_infos[idx];
            &&& n.tx_infos.len() == m.tx_infos.len()
            &&& n.tx_infos[idx].amount + amount == old_tx.amount
            &&& n.tx_infos[idx].sender == old_tx.sender
            &&& n.tx_infos[idx].unit_price == old_tx.unit_price
            &&& n.tx_infos[idx].channel == old_tx.channel
            &&& n.tx_infos[idx].uid == old_tx.uid
            &&& forall|j: int|
                0 <= j < m.tx_infos.len() && j != idx ==> #[trigger] n.tx_infos[j] == m.tx_infos[j]
            &&& total_amount(n.tx_infos) + amount == total_amount(m.tx_infos)
            &&& n.processed_token + (if old_tx.channel == SalesChannels::Indirect {
                amount as int
            } else {
                0
            }) == m.processed_token
            &&& n.current_supply == m.current_supply
            &&& n.state == m.state
            &&& n.sales_info == m.sales_info
            &&& n.total_supply == m.total_supply
            &&& n.token_state == m.token_state
        }),
{
    let old_tx = m.tx_infos[idx];
    lemma_amounts_update(m.tx_infos, idx, TxInfoModel { amount: (old_tx.amount - amount) as u64, ..old_tx });
    crate::schema::lemma_amounts_bound(m.tx_infos, idx);
}

/// Finalization succeeds only once the sale has ended; at any other time it
/// is refused with `InvalidState`. When it succeeds the vault is canceled
/// with nothing raised if fewer than the minimum supply were sold, and
/// otherwise finalized with the given total, which lies between the minimum
/// supply and the sold supply, and the token locked; the purchases, the sold
/// supply and the processed count stay.
pub proof fn lemma_finalize_only_after_end(m: VaultModel, now: u64, total_supply: u64)
    ensures
        m.current_state(now) != CrowdFundingState::Ended ==> finalize_outcome(m, now, total_supply)
            == Err::<VaultModel, ErrorCode>(ErrorCode::InvalidState),
        finalize_outcome(m, now, total_supply) matches Ok(n) ==> {
            &&& m.current_state(now) == CrowdFundingState::Ended
            &&& n.tx_infos == m.tx_infos
            &&& n.current_supply == m.current_supply
            &&& n.processed_token == m.processed_token
            &&& n.sales_info == m.sales_info
            &&& (m.current_supply < m.sales_info.min_supply ==> n.state
                == CrowdFundingState::Canceled && n.total_supply == 0 && n.token_state
                == m.token_state)
            &&& (m.current_supply >= m.sales_info.min_supply ==> {
                &&& n.state == CrowdFundingState::Finalized
                &&& n.total_supply == total_supply
                &&& m.sales_info.min_supply <= total_supply <= m.current_supply
                &&& n.token_state == TokenState::Locked
            })
        },
{
}

/// Finalization after the end of the sale succeeds exactly when too little
/// was sold, or the given total lies between the minimum supply and the sold
/// supply; otherwise it is refused with `InvalidSupply`.
pub proof fn lemma_finalize_supply(m: VaultModel, now: u64, total_supply: u64)
    requires
        m.current_state(now) == CrowdFundingState::Ended,
    ensures
        finalize_outcome(m, now, total_supply) is Ok <==> (m.current_supply
            < m.sales_info.min_supply || m.sales_info.min_supply <= total_supply
            <= m.current_supply),
        finalize_outcome(m, now, total_supply) is Err ==> finalize_outcome(m, now, total_supply)
            == Err::<VaultModel, ErrorCode>(ErrorCode::InvalidSupply),
{
}

/// A deployment records the accounts, the name, the sale parameters and
/// the treasury it is given, starts the sale in `Initialized` with nothing
/// sold and nothing raised, and keeps the purchases, the processed count and
/// the token state the account had.
pub proof fn lemma_deploy_effect(
    m: VaultModel,
    accounts: DeployAccounts,
    vault_token_name: Seq<char>,
    treasury_address: Pubkey,
    treasury_fee: u64,
    sales_info: SalesInfo,
)
    ensures
        ({
            let n = deployed(m, accounts, vault_token_name, treasury_address, treasury_fee, sales_info);
            &&& n.state == CrowdFundingState::Initialized
            &&& n.current_supply == 0
            &&& n.total_supply == 0
            &&& n.sales_info == sales_info
            &&& n.owner_address == accounts.owner_address
            &&& n.token_program == accounts.token_program
            &&& n.realx == accounts.realx
            &&& n.mint_token == accounts.mint_token
            &&& n.mint_base == accounts.base_token
            &&& n.vault_token_name == vault_token_name
            &&& n.treasury_address == treasury_address
            &&& n.treasury_fee == treasury_fee
            &&& n.tx_infos == m.tx_infos
            &&& n.processed_token == m.processed_token
            &&& n.token_state == m.token_state
        }),
{
}

/// A deployment is accepted exactly when the private sale starts after
/// `now`, the public sale starts no earlier than the private one and before
/// the end, the minimum supply is at most the maximum, and the fee is at
/// most 10000 basis points.
pub proof fn lemma_deploy_accepts_exactly_valid_sales(now: u64, treasury_fee: u64, sales_info: SalesInfo)
    ensures
        deploy_check(now, treasury_fee, sales_info) is Ok <==> {
            &&& now < sales_info.private_start_time
            &&& sales_info.private_start_time <= sales_info.public_start_time
            &&& sales_info.public_start_time < sales_info.end_time
            &&& sales_info.min_supply <= sales_info.max_supply
            &&& treasury_fee <= 10000
        },
        !(now < sales_info.private_start_time) ==> deploy_check(now, treasury_fee, sales_info)
            == Err::<(), ErrorCode>(ErrorCode::PrivateTimeLowerThanCurrentTime),
        now < sales_info.private_start_time && sales_info.public_start_time
            < sales_info.private_start_time ==> deploy_check(now, treasury_fee, sales_info)
            == Err::<(), ErrorCode>(ErrorCode::PublicTimeLowerThanPrivateTime),
        now < sales_info.private_start_time <= sales_info.public_start_time && sales_info.end_time
            <= sales_info.public_start_time ==> deploy_check(now, treasury_fee, sales_info)
            == Err::<(), ErrorCode>(ErrorCode::EndTimeLowerThanPublicTime),
        now < sales_info.private_start_time <= sales_info.public_start_time < sales_info.end_time
            && sales_info.max_supply < sales_info.min_supply ==> deploy_check(
            now,
            treasury_fee,
            sales_info,
        ) == Err::<(), ErrorCode>(ErrorCode::InvalidSupply),
        now < sales_info.private_start_time <= sales_info.public_start_time < sales_info.end_time
            && sales_info.min_supply <= sales_info.max_supply && treasury_fee > 10000
            ==> deploy_check(now, treasury_fee, sales_info) == Err::<(), ErrorCode>(
            ErrorCode::TreasuryFeeTooBig,
        ),
{
}

} // verus!
