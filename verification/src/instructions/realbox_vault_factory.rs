use anchor_lang::prelude::Pubkey;
use vstd::prelude::*;

use crate::errors::ErrorCode;
use crate::schema::{RealboxVaultState, SalesInfo, VaultModel};
use crate::utils::CrowdFundingState;

verus! {

/// Addresses of the accounts that a deployment records in the vault.
#[derive(Clone, Copy, Debug)]
pub struct DeployAccounts {
    pub token_program: Pubkey,
    pub realx: Pubkey,
    pub owner_address: Pubkey,
    pub mint_token: Pubkey,
    pub base_token: Pubkey,
}

/// Outcome of the checks of a deployment at time `now`.
pub open spec fn deploy_check(now: u64, treasury_fee: u64, sales_info: SalesInfo) -> Result<
    (),
    ErrorCode,
> {
    if !(now < sales_info.private_start_time) {
        Err(ErrorCode::PrivateTimeLowerThanCurrentTime)
    } else if !(sales_info.private_start_time <= sales_info.public_start_time) {
        Err(ErrorCode::PublicTimeLowerThanPrivateTime)
    } else if !(sales_info.public_start_time < sales_info.end_time) {
        Err(ErrorCode::EndTimeLowerThanPublicTime)
    } else if !(sales_info.min_supply <= sales_info.max_supply) {
        Err(ErrorCode::InvalidSupply)
    } else if !(treasury_fee <= 10000) {
        Err(ErrorCode::TreasuryFeeTooBig)
    } else {
        Ok(())
    }
}

/// The vault after a deployment: the accounts, the sale parameters, the
/// name and the treasury are recorded, the sale is `Initialized`, and
/// nothing is sold yet.
pub open spec fn deployed(
    m: VaultModel,
    accounts: DeployAccounts,
    vault_token_name: Seq<char>,
    treasury_address: Pubkey,
    treasury_fee: u64,
    sales_info: SalesInfo,
) -> VaultModel {
    VaultModel {
        token_program: accounts.token_program,
        realx: accounts.realx,
        owner_address: accounts.owner_address,
        mint_token: accounts.mint_token,
        mint_base: accounts.base_token,
        sales_info,
        state: CrowdFundingState::Initialized,
        current_supply: 0,
        total_supply: 0,
        vault_token_name,
        treasury_address,
        treasury_fee,
        ..m
    }
}

/// A vault account as it stands before its first deployment: no purchase
/// recorded and nothing processed.
pub open spec fn is_fresh(m: VaultModel) -> bool {
    m.tx_infos.len() == 0 && m.processed_token == 0
}

/// Deploys a vault into `realbox_vault` at time `now`.
///
/// The private sale must start after `now`
/// (`PrivateTimeLowerThanCurrentTime`), the public sale no earlier than the
/// private one (`PublicTimeLowerThanPrivateTime`) and before the end
/// (`EndTimeLowerThanPublicTime`), the minimum supply must not exceed the
/// maximum (`InvalidSupply`), and the fee must be at most 10000 basis points
/// (`TreasuryFeeTooBig`); the checks are made in that order. On failure the
/// vault is unchanged.
pub fn deploy_vault(
    realbox_vault: &mut RealboxVaultState,
    now: u64,
    accounts: DeployAccounts,
    vault_token_name: String,
    treasury_address: Pubkey,
    treasury_fee: u64,
    sales_info: SalesInfo,
) -> (r: Result<(), ErrorCode>)
    ensures
        r == deploy_check(now, treasury_fee, sales_info),
        r is Ok ==> final(realbox_vault)@ == deployed(
            old(realbox_vault)@,
            accounts,
            vault_token_name@,
            treasury_address,
            treasury_fee,
            sales_info,
        ),
        r is Err ==> final(realbox_vault)@ == old(realbox_vault)@,
        r is Ok && is_fresh(old(realbox_vault)@) ==> final(realbox_vault)@.wf(),
{
    let SalesInfo {
        public_unit_price,
        min_supply,
        max_supply,
        private_start_time,
        public_start_time,
        end_time,
    } = sales_info;

    if !(now < private_start_time) {
        return Err(ErrorCode::PrivateTimeLowerThanCurrentTime);
    }
    if !(private_start_time <= public_start_time) {
        return Err(ErrorCode::PublicTimeLowerThanPrivateTime);
    }
    if !(public_start_time < end_time) {
        return Err(ErrorCode::EndTimeLowerThanPublicTime);
    }
    if !(min_supply <= max_supply) {
        return Err(ErrorCode::InvalidSupply);
    }
    if !(treasury_fee <= 10000) {
        return Err(ErrorCode::TreasuryFeeTooBig);
    }

    realbox_vault.token_program = accounts.token_program;
    realbox_vault.realx = accounts.realx;
    realbox_vault.owner_address = accounts.owner_address;
    realbox_vault.mint_token = accounts.mint_token;
    realbox_vault.mint_base = accounts.base_token;

    realbox_vault.sales_info.public_unit_price = public_unit_price;
    realbox_vault.sales_info.min_supply = min_supply;
    realbox_vault.sales_info.max_supply = max_supply;
    realbox_vault.sales_info.private_start_time = private_start_time;
    realbox_vault.sales_info.public_start_time = public_start_time;
    realbox_vault.sales_info.end_time = end_time;

    realbox_vault.state = CrowdFundingState::Initialized;
    realbox_vault.current_supply = 0;
    realbox_vault.total_supply = 0;
    realbox_vault.vault_token_name = vault_token_name;
    realbox_vault.treasury_address = treasury_address;
    realbox_vault.treasury_fee = treasury_fee;
    Ok(())
}

/// Sets the treasury that collects the crowdfunding fee. Fails, leaving
/// the vault unchanged, when the fee is above 10000 basis points.
pub fn set_treasury(realbox_vault: &mut RealboxVaultState, treasury_address: Pubkey, treasury_fee: u64) -> (r:
    Result<(), ErrorCode>)
    ensures
        r is Err <==> treasury_fee > 10000,
        r is Err ==> r == Err::<(), ErrorCode>(ErrorCode::TreasuryFeeTooBig) && final(realbox_vault)@
            == old(realbox_vault)@,
        r is Ok ==> final(realbox_vault)@ == (VaultModel {
            treasury_address,
            treasury_fee,
            ..old(realbox_vault)@
        }),
        old(realbox_vault)@.wf() ==> final(realbox_vault)@.wf(),
{
    if !(treasury_fee <= 10000) {
        return Err(ErrorCode::TreasuryFeeTooBig);
    }
    realbox_vault.treasury_address = treasury_address;
    realbox_vault.treasury_fee = treasury_fee;
    Ok(())
}

} // verus!
