use anchor_lang::prelude::Pubkey;
use realbox_smart_contract_solana::errors::ErrorCode;
use realbox_smart_contract_solana::instructions::realbox_vault::{
    agent_buy_token, agent_return_token, claim_or_refund, claim_payments, finalize, unlock_token,
};
use realbox_smart_contract_solana::instructions::realbox_vault_factory::{
    deploy_vault, set_treasury, DeployAccounts,
};
use realbox_smart_contract_solana::schema::{RealboxVaultState, SalesInfo, TxInfo};
use realbox_smart_contract_solana::settlement::ClaimPlan;
use realbox_smart_contract_solana::utils::{CrowdFundingState, SalesChannels, TokenState};

fn key(b: u8) -> Pubkey {
    Pubkey::new_from_array([b; 32])
}

fn empty_vault() -> RealboxVaultState {
    RealboxVaultState {
        vault_token_name: String::new(),
        owner_address: key(0),
        token_program: key(0),
        mint_token: key(0),
        mint_base: key(0),
        realx: key(0),
        state: CrowdFundingState::Uninitialized,
        tx_infos: Vec::new(),
        sales_info: SalesInfo {
            public_unit_price: 0,
            min_supply: 0,
            max_supply: 0,
            private_start_time: 0,
            public_start_time: 0,
            end_time: 0,
        },
        token_state: TokenState::Unlocked,
        processed_token: 0,
        current_supply: 0,
        total_supply: 0,
        treasury_address: key(0),
        treasury_fee: 0,
    }
}

fn sales() -> SalesInfo {
    SalesInfo {
        public_unit_price: 5,
        min_supply: 10,
        max_supply: 100,
        private_start_time: 100,
        public_start_time: 200,
        end_time: 300,
    }
}

fn accounts() -> DeployAccounts {
    DeployAccounts {
        token_program: key(1),
        realx: key(2),
        owner_address: key(3),
        mint_token: key(4),
        base_token: key(5),
    }
}

fn deployed_vault() -> RealboxVaultState {
    let mut v = empty_vault();
    deploy_vault(&mut v, 50, accounts(), "vault".to_string(), key(9), 500, sales()).unwrap();
    v
}

fn price(p: f64) -> u64 {
    p.to_bits()
}

fn tx(amount: u64, channel: SalesChannels) -> TxInfo {
    TxInfo { sender: key(3), amount, unit_price: price(2.0), channel, uid: "u".to_string() }
}

#[test]
fn error_messages() {
    assert_eq!(
        ErrorCode::TreasuryFeeTooBig.message(),
        "RealboxVaultFactory: treasuryFee must not be higher than 10000 (100%)"
    );
    assert_eq!(
        ErrorCode::InvalidSupply.message(),
        "RealboxVaultFactory: minSupply must not be higher than maxSupply"
    );
    assert_eq!(
        ErrorCode::EndTimeLowerThanPublicTime.message(),
        "RealboxVaultFactory: publicStartTime must be lower than endTime"
    );
    assert_eq!(
        ErrorCode::PublicTimeLowerThanPrivateTime.message(),
        "RealboxVaultFactory: publicStartTime must be higher than privateStartTime"
    );
    assert_eq!(ErrorCode::InvalidState.message(), "InvalidState");
    assert_eq!(ErrorCode::InvalidTransactionId.message(), "InvalidTransactionId");
}

#[test]
fn deploy_records_everything() {
    let v = deployed_vault();
    assert_eq!(v.state, CrowdFundingState::Initialized);
    assert_eq!(v.owner_address, key(3));
    assert_eq!(v.token_program, key(1));
    assert_eq!(v.realx, key(2));
    assert_eq!(v.mint_token, key(4));
    assert_eq!(v.mint_base, key(5));
    assert_eq!(v.sales_info, sales());
    assert_eq!(v.vault_token_name, "vault");
    assert_eq!(v.treasury_address, key(9));
    assert_eq!(v.treasury_fee, 500);
    assert_eq!(v.current_supply, 0);
    assert_eq!(v.total_supply, 0);
    assert!(v.tx_infos.is_empty());
}

#[test]
fn deploy_rejects_bad_parameters() {
    let cases: Vec<(u64, SalesInfo, u64, ErrorCode)> = vec![
        (100, sales(), 500, ErrorCode::PrivateTimeLowerThanCurrentTime),
        (
            50,
            SalesInfo { public_start_time: 99, ..sales() },
            500,
            ErrorCode::PublicTimeLowerThanPrivateTime,
        ),
        (50, SalesInfo { end_time: 200, ..sales() }, 500, ErrorCode::EndTimeLowerThanPublicTime),
        (50, SalesInfo { min_supply: 101, ..sales() }, 500, ErrorCode::InvalidSupply),
        (50, sales(), 10001, ErrorCode::TreasuryFeeTooBig),
    ];
    for (now, info, fee, err) in cases {
        let mut v = empty_vault();
        let r = deploy_vault(&mut v, now, accounts(), "x".to_string(), key(9), fee, info);
        assert_eq!(r, Err(err));
        assert_eq!(v.state, CrowdFundingState::Uninitialized);
        assert_eq!(v.owner_address, key(0));
    }
    let mut v = empty_vault();
    assert_eq!(
        deploy_vault(&mut v, 50, accounts(), "x".to_string(), key(9), 10000, sales()),
        Ok(())
    );
}

#[test]
fn deploy_reports_each_check() {
    let mut v = empty_vault();
    let early_public = SalesInfo {
        public_unit_price: 1,
        min_supply: 10,
        max_supply: 100,
        private_start_time: 2500,
        public_start_time: 2000,
        end_time: 3000,
    };
    assert_eq!(
        deploy_vault(&mut v, 1000, accounts(), "x".to_string(), key(9), 100, early_public),
        Err(ErrorCode::PublicTimeLowerThanPrivateTime)
    );
    let late_public = SalesInfo { private_start_time: 2000, public_start_time: 3000, ..early_public };
    assert_eq!(
        deploy_vault(&mut v, 1000, accounts(), "x".to_string(), key(9), 100, late_public),
        Err(ErrorCode::EndTimeLowerThanPublicTime)
    );
    let bad_supply = SalesInfo {
        min_supply: 101,
        private_start_time: 2000,
        public_start_time: 2000,
        ..early_public
    };
    assert_eq!(
        deploy_vault(&mut v, 1000, accounts(), "x".to_string(), key(9), 100, bad_supply),
        Err(ErrorCode::InvalidSupply)
    );
    assert_eq!(
        ErrorCode::InvalidSupply.message(),
        "RealboxVaultFactory: minSupply must not be higher than maxSupply"
    );
}

#[test]
fn treasury_fee_bound() {
    let mut v = deployed_vault();
    assert_eq!(set_treasury(&mut v, key(7), 10001), Err(ErrorCode::TreasuryFeeTooBig));
    assert_eq!(v.treasury_address, key(9));
    assert_eq!(v.treasury_fee, 500);
    assert_eq!(set_treasury(&mut v, key(7), 10000), Ok(()));
    assert_eq!(v.treasury_address, key(7));
    assert_eq!(v.treasury_fee, 10000);
}

#[test]
fn sale_phases_follow_time() {
    let v = deployed_vault();
    assert_eq!(v.current_state(99), CrowdFundingState::Initialized);
    assert_eq!(v.current_state(100), CrowdFundingState::PrivateStarted);
    assert_eq!(v.current_state(199), CrowdFundingState::PrivateStarted);
    assert_eq!(v.current_state(200), CrowdFundingState::PublicStarted);
    assert_eq!(v.current_state(300), CrowdFundingState::Ended);
    assert!(v.only_state(CrowdFundingState::Ended, 1000));
    assert!(!v.only_state(CrowdFundingState::Ended, 299));
    let mut w = deployed_vault();
    w.state = CrowdFundingState::Finalized;
    assert_eq!(w.current_state(0), CrowdFundingState::Finalized);
    assert_eq!(w.current_state(u64::MAX), CrowdFundingState::Finalized);
}

#[test]
fn buy_token_checks_supply() {
    let mut v = deployed_vault();
    assert_eq!(
        v.buy_token(0, price(1.0), SalesChannels::DirectOnchain, "a".to_string()),
        Err(ErrorCode::InvalidAmount)
    );
    assert_eq!(v.buy_token(60, price(1.5), SalesChannels::DirectOnchain, "a".to_string()), Ok(()));
    assert_eq!(
        v.buy_token(41, price(1.5), SalesChannels::DirectOnchain, "b".to_string()),
        Err(ErrorCode::AmountHigherRemainingSupply)
    );
    assert_eq!(v.buy_token(40, price(1.5), SalesChannels::DirectOnchain, "b".to_string()), Ok(()));
    assert_eq!(v.current_supply, 100);
    assert_eq!(v.tx_infos.len(), 2);
    assert_eq!(v.tx_infos[0].sender, key(3));
    assert_eq!(v.tx_infos[0].amount, 60);
    assert_eq!(f64::from_bits(v.tx_infos[1].unit_price), 1.5);
    assert_eq!(v.tx_infos[1].uid, "b");
}

#[test]
fn agent_buy_token_rules() {
    let mut v = deployed_vault();
    assert_eq!(
        agent_buy_token(&mut v, 150, 5, price(1.0), SalesChannels::Indirect, String::new()),
        Err(ErrorCode::UidMustNotEmpty)
    );
    assert_eq!(
        agent_buy_token(&mut v, 99, 5, price(1.0), SalesChannels::Indirect, "u".to_string()),
        Err(ErrorCode::InvalidState)
    );
    assert_eq!(
        agent_buy_token(&mut v, 300, 5, price(1.0), SalesChannels::Indirect, "u".to_string()),
        Err(ErrorCode::InvalidState)
    );
    assert_eq!(
        agent_buy_token(&mut v, 150, 5, price(1.0), SalesChannels::DirectOnchain, "u".to_string()),
        Err(ErrorCode::InvalidSalesChannel)
    );
    assert_eq!(
        agent_buy_token(&mut v, 150, 0, price(1.0), SalesChannels::Indirect, "u".to_string()),
        Err(ErrorCode::InvalidAmount)
    );
    assert!(v.tx_infos.is_empty());
    assert_eq!(
        agent_buy_token(&mut v, 150, 5, price(1.0), SalesChannels::Indirect, "u".to_string()),
        Ok(Some(5))
    );
    assert_eq!(v.processed_token, 5);
    assert_eq!(
        agent_buy_token(&mut v, 250, 7, price(1.0), SalesChannels::DirectOffchain, "u".to_string()),
        Ok(None)
    );
    assert_eq!(v.processed_token, 5);
    assert_eq!(v.current_supply, 12);
    assert_eq!(
        agent_buy_token(&mut v, 250, 89, price(1.0), SalesChannels::Indirect, "u".to_string()),
        Err(ErrorCode::AmountHigherRemainingSupply)
    );
}

#[test]
fn finalize_cancels_below_minimum() {
    let mut v = deployed_vault();
    agent_buy_token(&mut v, 150, 9, price(1.0), SalesChannels::DirectOffchain, "u".to_string())
        .unwrap();
    assert_eq!(finalize(&mut v, 299, 9), Err(ErrorCode::InvalidState));
    assert_eq!(finalize(&mut v, 300, 9), Ok(()));
    assert_eq!(v.state, CrowdFundingState::Canceled);
    assert_eq!(v.total_supply, 0);
    assert_eq!(v.token_state, TokenState::Unlocked);
    assert_eq!(finalize(&mut v, 400, 9), Err(ErrorCode::InvalidState));
}

#[test]
fn finalize_checks_total_supply() {
    let mut v = deployed_vault();
    agent_buy_token(&mut v, 150, 50, price(1.0), SalesChannels::DirectOffchain, "u".to_string())
        .unwrap();
    assert_eq!(finalize(&mut v, 300, 9), Err(ErrorCode::InvalidSupply));
    assert_eq!(finalize(&mut v, 300, 51), Err(ErrorCode::InvalidSupply));
    assert_eq!(v.state, CrowdFundingState::Initialized);
    assert_eq!(finalize(&mut v, 300, 30), Ok(()));
    assert_eq!(v.state, CrowdFundingState::Finalized);
    assert_eq!(v.total_supply, 30);
    assert!(v.check_locked());
}

#[test]
fn agent_return_token_rules() {
    let mut v = deployed_vault();
    agent_buy_token(&mut v, 150, 20, price(1.0), SalesChannels::Indirect, "u".to_string()).unwrap();
    agent_buy_token(&mut v, 150, 10, price(1.0), SalesChannels::DirectOffchain, "v".to_string())
        .unwrap();
    v.buy_token(5, price(1.0), SalesChannels::DirectOnchain, "w".to_string()).unwrap();
    assert_eq!(agent_return_token(&mut v, 150, 1, 3), Err(ErrorCode::InvalidTransactionId));
    assert_eq!(agent_return_token(&mut v, 99, 1, 0), Err(ErrorCode::InvalidState));
    assert_eq!(agent_return_token(&mut v, 150, 0, 0), Err(ErrorCode::InvalidAmount));
    assert_eq!(agent_return_token(&mut v, 150, 21, 0), Err(ErrorCode::InvalidAmount));
    assert_eq!(agent_return_token(&mut v, 150, 1, 2), Err(ErrorCode::InvalidSalesChannel));
    assert_eq!(agent_return_token(&mut v, 150, 8, 0), Ok(Some(8)));
    assert_eq!(v.tx_infos[0].amount, 12);
    assert_eq!(v.processed_token, 12);
    assert_eq!(agent_return_token(&mut v, 300, 10, 1), Ok(None));
    assert_eq!(v.tx_infos[1].amount, 0);
    assert_eq!(v.processed_token, 12);
    // The sold supply is not reduced by a return.
    assert_eq!(v.current_supply, 35);
}

#[test]
fn return_undoes_indirect_buy() {
    let mut v = deployed_vault();
    agent_buy_token(&mut v, 150, 3, price(1.0), SalesChannels::Indirect, "a".to_string()).unwrap();
    let processed = v.processed_token;
    let supply = v.current_supply;
    assert_eq!(
        agent_buy_token(&mut v, 150, 17, price(1.0), SalesChannels::Indirect, "b".to_string()),
        Ok(Some(17))
    );
    assert_eq!(agent_return_token(&mut v, 150, 17, 1), Ok(Some(17)));
    assert_eq!(v.processed_token, processed);
    assert_eq!(v.current_supply, supply + 17);
    assert_eq!(v.tx_infos[1].amount, 0);
}

#[test]
fn unlock_token_unfreezes() {
    let mut v = deployed_vault();
    v.token_state = TokenState::Locked;
    assert!(v.check_locked());
    assert_eq!(unlock_token(&mut v), Ok(()));
    assert_eq!(v.token_state, TokenState::Unlocked);
    assert_eq!(v.state, CrowdFundingState::Unfrozen);
    assert!(!v.check_locked());
    let mut w = deployed_vault();
    assert_eq!(w.unlocked(), Ok(()));
    assert_eq!(w.state, CrowdFundingState::Unfrozen);
}

fn finalized_vault(txs: Vec<TxInfo>, processed: u64, total: u64) -> RealboxVaultState {
    let mut v = deployed_vault();
    v.current_supply = txs.iter().map(|t| t.amount).sum();
    v.tx_infos = txs;
    v.processed_token = processed;
    v.total_supply = total;
    v.state = CrowdFundingState::Finalized;
    v
}

#[test]
fn claim_requires_finalized() {
    let mut v = deployed_vault();
    assert!(matches!(claim_or_refund(&mut v, 400), Err(ErrorCode::InvalidState)));
}

#[test]
fn claim_splits_in_order() {
    let mut v = finalized_vault(
        vec![
            tx(10, SalesChannels::DirectOnchain),
            tx(15, SalesChannels::DirectOffchain),
            tx(20, SalesChannels::DirectOnchain),
            tx(5, SalesChannels::Indirect),
        ],
        0,
        30,
    );
    let s = claim_or_refund(&mut v, 400).unwrap().unwrap();
    let split: Vec<(u64, u64)> = s.lines.iter().map(|l| (l.claim_token, l.refund_token)).collect();
    // 0 + 10 <= 30: all claimed; 10 + 15 <= 30: all claimed; 25 + 20 > 30: 5 claimed;
    // after that the processed count is 45, so the indirect purchase is refunded.
    assert_eq!(split, vec![(10, 0), (15, 0), (5, 15), (0, 5)]);
    assert_eq!(s.total_claim_token, 30);
    assert_eq!(s.processed_token, 45);
    assert_eq!(v.processed_token, 45);
    assert_eq!(s.lines[2].channel, SalesChannels::DirectOnchain);
    assert_eq!(s.lines[2].unit_price, price(2.0));
    for (line, t) in s.lines.iter().zip(v.tx_infos.iter()) {
        assert_eq!(line.claim_token + line.refund_token, t.amount);
    }
}

#[test]
fn indirect_claims_do_not_advance_processed() {
    let mut v = finalized_vault(
        vec![tx(8, SalesChannels::Indirect), tx(8, SalesChannels::Indirect)],
        8,
        20,
    );
    let s = claim_or_refund(&mut v, 400).unwrap().unwrap();
    assert_eq!(s.lines[0].claim_token, 8);
    assert_eq!(s.lines[1].claim_token, 8);
    assert_eq!(s.total_claim_token, 0);
    assert_eq!(s.processed_token, 8);
}

#[test]
fn claim_never_overmints() {
    let mut v = finalized_vault(
        vec![
            tx(7, SalesChannels::DirectOnchain),
            tx(9, SalesChannels::DirectOffchain),
            tx(4, SalesChannels::DirectOnchain),
        ],
        6,
        15,
    );
    let s = claim_or_refund(&mut v, 400).unwrap().unwrap();
    assert!(s.total_claim_token == 0 || 6 + s.total_claim_token <= 15);
    assert_eq!(s.total_claim_token, 9);
    // A second settlement finds everything processed and claims nothing.
    let again = claim_or_refund(&mut v, 400).unwrap().unwrap();
    assert_eq!(again.total_claim_token, 0);
}

#[test]
fn claim_overflow_is_reported() {
    let mut v = finalized_vault(vec![tx(10, SalesChannels::DirectOnchain)], u64::MAX - 5, 30);
    assert!(matches!(claim_or_refund(&mut v, 400), Ok(None)));
    assert_eq!(v.processed_token, u64::MAX - 5);
}

#[test]
fn payments_of_settlement() {
    let mut v = finalized_vault(
        vec![
            tx(10, SalesChannels::DirectOnchain),
            tx(15, SalesChannels::DirectOffchain),
            tx(20, SalesChannels::DirectOnchain),
        ],
        0,
        30,
    );
    let mut s = claim_or_refund(&mut v, 400).unwrap().unwrap();
    for line in s.lines.iter_mut() {
        line.claim_value = line.claim_token * 2;
        line.refund_value = line.refund_token * 2;
    }
    // collected: 10 * 2 + 5 * 2 = 30; fee 500 bp = 1; refund 15 * 2 = 30.
    let plan = claim_payments(&v, &s).unwrap();
    assert_eq!(
        plan,
        ClaimPlan { fee_transfer: Some(1), mint_amount: 30, refund_transfer: Some(30) }
    );
    set_treasury(&mut v, key(9), 0).unwrap();
    let plan = claim_payments(&v, &s).unwrap();
    assert_eq!(plan.fee_transfer, None);
    set_treasury(&mut v, key(9), 10000).unwrap();
    let plan = claim_payments(&v, &s).unwrap();
    assert_eq!(plan.fee_transfer, Some(30));
}

#[test]
fn payments_without_collection() {
    let mut v = finalized_vault(vec![tx(10, SalesChannels::DirectOffchain)], 0, 10);
    let s = claim_or_refund(&mut v, 400).unwrap().unwrap();
    let plan = claim_payments(&v, &s).unwrap();
    assert_eq!(plan, ClaimPlan { fee_transfer: None, mint_amount: 10, refund_transfer: None });
}

#[test]
fn payments_overflow_is_reported() {
    let mut v = finalized_vault(
        vec![tx(10, SalesChannels::DirectOnchain), tx(10, SalesChannels::DirectOnchain)],
        0,
        30,
    );
    let mut s = claim_or_refund(&mut v, 400).unwrap().unwrap();
    s.lines[0].claim_value = u64::MAX;
    s.lines[1].claim_value = 1;
    assert_eq!(claim_payments(&v, &s), None);
    s.lines[1].claim_value = 0;
    s.lines[0].claim_value = u64::MAX / 2;
    assert_eq!(claim_payments(&v, &s), None);
}

#[test]
fn instructions_keep_the_invariant() {
    let mut v = deployed_vault();
    assert!(v.check_consistent());
    agent_buy_token(&mut v, 150, 20, price(1.0), SalesChannels::Indirect, "a".to_string()).unwrap();
    agent_buy_token(&mut v, 250, 30, price(1.0), SalesChannels::DirectOffchain, "b".to_string())
        .unwrap();
    assert!(v.check_consistent());
    agent_return_token(&mut v, 260, 5, 0).unwrap();
    agent_return_token(&mut v, 260, 30, 1).unwrap();
    assert!(v.check_consistent());
    finalize(&mut v, 300, 40).unwrap();
    assert!(v.check_consistent());
    claim_or_refund(&mut v, 400).unwrap().unwrap();
    assert!(v.check_consistent());
    unlock_token(&mut v).unwrap();
    assert!(v.check_consistent());
}

#[test]
fn inconsistent_vaults_are_detected() {
    let mut v = deployed_vault();
    v.current_supply = 101;
    assert!(!v.check_consistent());
    let mut w = deployed_vault();
    w.tx_infos.push(tx(5, SalesChannels::Indirect));
    w.current_supply = 5;
    assert!(!w.check_consistent());
    w.processed_token = 5;
    assert!(w.check_consistent());
    w.processed_token = 6;
    assert!(!w.check_consistent());
    w.state = CrowdFundingState::Finalized;
    assert!(w.check_consistent());
    w.treasury_fee = 10001;
    assert!(!w.check_consistent());
}

#[test]
fn repeated_claims_never_overmint() {
    let mut v = finalized_vault(
        vec![
            tx(7, SalesChannels::DirectOnchain),
            tx(9, SalesChannels::DirectOffchain),
            tx(4, SalesChannels::DirectOnchain),
        ],
        6,
        15,
    );
    let start = v.processed_token;
    let mut minted = 0;
    for _ in 0..3 {
        minted += claim_or_refund(&mut v, 400).unwrap().unwrap().total_claim_token;
    }
    assert_eq!(minted, 9);
    assert!(start + minted <= v.total_supply);
}

#[test]
fn zero_purchase_rejected_before_supply() {
    let mut v = deployed_vault();
    v.current_supply = 101;
    assert_eq!(
        v.buy_token(0, price(1.0), SalesChannels::DirectOnchain, "a".to_string()),
        Err(ErrorCode::InvalidAmount)
    );
    assert_eq!(v.current_supply, 101);
}
