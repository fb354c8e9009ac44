use escrow_ledger::campaign::{deadline_after, Dao, Royalty};
use escrow_ledger::distribution::Beneficiary;
use escrow_ledger::edition::ProgramState;
use escrow_ledger::error::ErrorCode;
use escrow_ledger::ledger::Ledger;
use escrow_ledger::license::LicenseManager;
use escrow_ledger::streaming::{StreamingRevenue, Track};

#[test]
fn deadline_counts_whole_days() {
    assert_eq!(deadline_after(1000, 2), Ok(1000 + 2 * 86400));
    assert_eq!(deadline_after(i64::MAX, 1), Err(ErrorCode::ArithmeticOverflow));
    assert_eq!(deadline_after(i64::MIN, u64::MAX / 86400), Ok(9223372036854750592));
}

fn governance(supply: u64) -> (Ledger, usize, Vec<usize>) {
    let mut l = Ledger::new();
    let dao = l.open_account(supply);
    let holders = (0..3).map(|_| l.open_account(0)).collect();
    (l, dao, holders)
}

#[test]
fn campaign_lifecycle() {
    let (mut g, dao_gov, h) = governance(1000);
    let mut dao = Dao::initialize();
    let mut c = dao.create_campaign(7, 5000, 1, 0).unwrap();
    let c2 = dao.create_campaign(7, 5000, 1, 0).unwrap();
    assert!(!c2.is_approved());
    assert_eq!(c.contribute_eth(&mut g, 1, dao_gov, h[0], 10, 5), Err(ErrorCode::InvalidState));
    assert_eq!(c.approve_campaign(0), Err(ErrorCode::Unauthorized));
    assert_eq!(c.approve_campaign(3), Ok(()));
    assert_eq!(c.approve_campaign(3), Err(ErrorCode::InvalidState));
    assert!(c.is_approved());
    assert_eq!(c.contribute_eth(&mut g, 1, dao_gov, h[0], 0, 5), Err(ErrorCode::InvalidAmount));
    assert_eq!(c.contribute_eth(&mut g, 1, dao_gov, h[0], 10, 86401), Err(ErrorCode::Expired));
    assert_eq!(c.contribute_eth(&mut g, 1, dao_gov, h[0], 10, 5), Ok(()));
    assert_eq!(c.contribute_eth(&mut g, 2, dao_gov, h[1], 30, 5), Ok(()));
    assert_eq!(c.contribute_eth(&mut g, 1, dao_gov, h[0], 20, 6), Ok(()));
    assert_eq!(c.amount_raised(), 60);
    assert_eq!(g.balance(h[0]), Some(30));
    assert_eq!(g.balance(h[1]), Some(30));
    assert_eq!(g.balance(dao_gov), Some(940));
    assert_eq!(c.complete_campaign(8, 90000), Err(ErrorCode::Unauthorized));
    assert_eq!(c.complete_campaign(7, 86400), Err(ErrorCode::NotYetExpired));
    assert_eq!(c.complete_campaign(7, 86401), Ok(()));
    assert_eq!(c.complete_campaign(7, 86402), Err(ErrorCode::InvalidState));
    assert!(c.is_completed());
}

#[test]
fn contribution_without_governance_tokens_is_not_recorded() {
    let (mut g, dao_gov, h) = governance(5);
    let mut dao = Dao::initialize();
    let mut c = dao.create_campaign(7, 5000, 1, 0).unwrap();
    c.approve_campaign(1).unwrap();
    assert_eq!(c.contribute_eth(&mut g, 1, dao_gov, h[0], 10, 5), Err(ErrorCode::InsufficientFunds));
    assert_eq!(c.amount_raised(), 0);
    assert_eq!(g.balance(dao_gov), Some(5));
}

#[test]
fn campaign_investor_capacity() {
    let (mut g, dao_gov, h) = governance(1000);
    let mut dao = Dao::initialize();
    let mut c = dao.create_campaign(7, 5000, 1, 0).unwrap();
    c.approve_campaign(1).unwrap();
    for i in 0..100 {
        assert_eq!(c.contribute_eth(&mut g, i, dao_gov, h[0], 1, 0), Ok(()));
    }
    assert_eq!(c.contribute_eth(&mut g, 100, dao_gov, h[0], 1, 0), Err(ErrorCode::CapacityExceeded));
    assert_eq!(c.contribute_eth(&mut g, 5, dao_gov, h[0], 1, 0), Ok(()));
    assert_eq!(c.amount_raised(), 101);
    assert_eq!(g.balance(h[0]), Some(101));
}

#[test]
fn royalties_follow_contributions() {
    let mut ledger = Ledger::new();
    let dao_funds = ledger.open_account(1000);
    let first = ledger.open_account(0);
    let second = ledger.open_account(0);
    let dao_gov = ledger.open_account(100);
    let mut dao = Dao::initialize();
    let mut c = dao.create_campaign(7, 5000, 1, 0).unwrap();
    let mut r = Royalty::new(1, 5000).unwrap();
    assert_eq!(r.record_revenue(&c, &mut ledger, dao_funds, 1000), Err(ErrorCode::InvalidState));
    c.approve_campaign(1).unwrap();
    c.contribute_eth(&mut ledger, first, dao_gov, first, 10, 0).unwrap();
    c.contribute_eth(&mut ledger, second, dao_gov, second, 30, 0).unwrap();
    c.complete_campaign(7, 100000).unwrap();
    assert_eq!(r.record_revenue(&c, &mut ledger, dao_funds, 1001), Ok(vec![125, 375]));
    assert_eq!(ledger.balance(first), Some(135));
    assert_eq!(ledger.balance(second), Some(405));
    assert_eq!(ledger.balance(dao_funds), Some(500));
    assert_eq!(r.revenue(), 1001);
    assert_eq!(r.record_revenue(&c, &mut ledger, dao_funds, 2000), Err(ErrorCode::InsufficientFunds));
    assert_eq!(r.revenue(), 1001);
    assert_eq!(ledger.balance(dao_funds), Some(500));
    assert!(matches!(Royalty::new(1, 10001), Err(ErrorCode::InvalidWeights)));
}

#[test]
fn edition_mints_within_supply_and_distributes() {
    let mut ledger = Ledger::new();
    let payer = ledger.open_account(2000);
    let platform = ledger.open_account(0);
    let a = ledger.open_account(0);
    let b = ledger.open_account(0);
    assert!(matches!(ProgramState::initialize(1001), Err(ErrorCode::FeeTooHigh)));
    let mut state = ProgramState::initialize(500).unwrap();
    assert!(matches!(state.create_edition(0, vec![]), Err(ErrorCode::InvalidAmount)));
    assert!(matches!(state.create_edition(5, vec![]), Err(ErrorCode::InvalidWeights)));
    let collaborators = vec![Beneficiary { account: a, share: 2000 }, Beneficiary { account: b, share: 6000 }];
    let mut e = state.create_edition(5, collaborators).unwrap();
    assert_eq!(e.mint_edition(3), Ok(()));
    assert_eq!(e.mint_edition(3), Err(ErrorCode::CapacityExceeded));
    assert_eq!(e.mint_edition(2), Ok(()));
    assert_eq!(e.minted_count(), 5);
    let p = e.distribute_sale_revenue(&mut ledger, payer, platform, 2000).unwrap();
    assert_eq!(p.fee, 100);
    assert_eq!(p.amounts, vec![475, 1425]);
    assert_eq!(ledger.balance(payer), Some(0));
    assert_eq!(ledger.balance(a), Some(475));
    assert_eq!(ledger.balance(b), Some(1425));
}

#[test]
fn edition_collaborator_lists_are_checked() {
    let mut state = ProgramState::initialize(0).unwrap();
    let many: Vec<Beneficiary> = (0..11).map(|i| Beneficiary { account: i, share: 1 }).collect();
    assert!(matches!(state.create_edition(5, many), Err(ErrorCode::CapacityExceeded)));
    let zero = vec![Beneficiary { account: 0, share: 0 }, Beneficiary { account: 1, share: 10 }];
    assert!(matches!(state.create_edition(5, zero), Err(ErrorCode::InvalidWeights)));
    let over = vec![Beneficiary { account: 0, share: 5001 }, Beneficiary { account: 1, share: 5000 }];
    assert!(matches!(state.create_edition(5, over), Err(ErrorCode::InvalidWeights)));
    let full = vec![Beneficiary { account: 0, share: 5000 }, Beneficiary { account: 1, share: 5000 }];
    let first = state.create_edition(5, full.clone()).unwrap();
    let second = state.create_edition(1, full).unwrap();
    assert_eq!(first.edition_id(), 0);
    assert_eq!(second.edition_id(), 1);
}

#[test]
fn license_royalty_until_expiry() {
    let mut ledger = Ledger::new();
    let payer = ledger.open_account(1000);
    let owner = ledger.open_account(0);
    let mut manager = LicenseManager::initialize();
    assert!(matches!(manager.issue_license(1, 9, 1, 10001, 1, 0), Err(ErrorCode::InvalidWeights)));
    let license = manager.issue_license(1, 9, 1, 1500, 1, 0).unwrap();
    assert_eq!(license.license_id(), 1);
    assert_eq!(license.end_date(), 86400);
    assert_eq!(license.record_usage(&mut ledger, payer, owner, 999, 10), Ok(149));
    assert_eq!(ledger.balance(owner), Some(149));
    assert_eq!(license.record_usage(&mut ledger, payer, owner, 999, 86401), Err(ErrorCode::Expired));
    assert_eq!(ledger.balance(payer), Some(851));
}

#[test]
fn streams_pay_out_each_period() {
    let mut ledger = Ledger::new();
    let treasury = ledger.open_account(1000);
    let a = ledger.open_account(0);
    let b = ledger.open_account(0);
    assert!(matches!(StreamingRevenue::initialize(0, 10), Err(ErrorCode::InvalidAmount)));
    let cfg = StreamingRevenue::initialize(3, 100).unwrap();
    assert!(matches!(Track::add_track(1, vec![a], vec![5000, 5000]), Err(ErrorCode::InvalidWeights)));
    assert!(matches!(Track::add_track(1, vec![a, b], vec![5000, 4000]), Err(ErrorCode::InvalidWeights)));
    let mut t = Track::add_track(1, vec![a, b], vec![2500, 7500]).unwrap();
    assert_eq!(t.record_stream(&cfg, &mut ledger, treasury), Ok(None));
    assert_eq!(t.record_stream(&cfg, &mut ledger, treasury), Ok(None));
    assert_eq!(t.record_stream(&cfg, &mut ledger, treasury), Ok(Some(vec![25, 75])));
    assert_eq!(t.streams(), 3);
    assert_eq!(ledger.balance(a), Some(25));
    assert_eq!(ledger.balance(b), Some(75));
    assert_eq!(ledger.balance(treasury), Some(900));
}

#[test]
fn failed_stream_payout_counts_nothing() {
    let mut ledger = Ledger::new();
    let treasury = ledger.open_account(50);
    let a = ledger.open_account(0);
    let cfg = StreamingRevenue::initialize(1, 100).unwrap();
    let mut t = Track::add_track(1, vec![a], vec![10000]).unwrap();
    assert_eq!(t.record_stream(&cfg, &mut ledger, treasury), Err(ErrorCode::InsufficientFunds));
    assert_eq!(t.streams(), 0);
    assert_eq!(ledger.balance(treasury), Some(50));
}
