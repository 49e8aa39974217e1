use foresta::dex;
use foresta::foresta_bounties::{BountyStatus, Config, Error, Event, Pallet};
use foresta::percent::Percent;
use foresta::support::{ArithmeticError, DispatchError, Origin};
use foresta::weight::{rocks_db_weight, RuntimeDbWeight};

const USDT: u32 = 1;
const PROJECT: u32 = 0;
const ADMIN: u64 = 1;

fn dex_account() -> u64 {
    u64::from_le_bytes(*b"modlbitg")
}

fn dex_config() -> dex::Config {
    dex::Config {
        pallet_account: dex_account(),
        min_units_to_create_sell_order: 2,
        min_price_per_unit: 1,
        max_payment_fee: Percent::from_percent(50),
        max_royalty: Percent::from_percent(10),
        max_purchase_fee: 100,
    }
}

fn config() -> Config {
    Config { max_bounty_description: 100, max_bounty_submission: 100, max_concurrent_payouts: 100 }
}

/// The project's treasury holds 100 USDT: a seller listed 5 credits at 1000
/// and a buyer bought one under a 10% payment fee, a fee of 10 and a 10%
/// royalty (1110 USDT reached the DEX).
fn init_project_and_treasury() -> dex::Pallet {
    let mut d = dex::Pallet::new(dex_config());
    assert!(d.force_set_payment_fee(Origin::Root, Percent::from_percent(10)).is_ok());
    assert!(d.force_set_purchase_fee(Origin::Root, 10).is_ok());
    assert!(d.force_set_royalty(Origin::Root, Percent::from_percent(10)).is_ok());
    assert!(d
        .force_set_open_order_allowed_limits(Origin::Root, dex::types::UserLevel::KYCLevel1, 1000)
        .is_ok());
    assert!(d.create_sell_order(Origin::Signed(1), 0, 5, USDT, 1000, true, Some((PROJECT, 0))).is_ok());
    let effects =
        d.trade_order(Origin::Signed(4), 0, 0, 1, 110, false, None, true, Some((PROJECT, 0))).unwrap();
    assert_eq!(
        effects.actions[1],
        dex::Action::TransferCurrency { currency_id: USDT, from: 4, to: dex_account(), amount: 1110 }
    );
    d
}

fn create_bounty(b: &mut Pallet, d: &dex::Pallet, amount: u128) -> Result<Option<Event>, DispatchError> {
    b.create_bounty(Origin::Root, PROJECT, USDT, amount, "Bounty1".as_bytes().to_vec(), d)
}

#[test]
fn it_works_for_force_set_unlock_duration() {
    let mut b = Pallet::new(config());
    assert_eq!(b.get_unlock_duration(), 0);
    assert_eq!(b.force_set_unlock_duration(Origin::Root, 1000), Ok(None));
    assert_eq!(b.get_unlock_duration(), 1000);
}

#[test]
fn it_works_for_create_bounty() {
    let d = init_project_and_treasury();
    let mut b = Pallet::new(config());
    assert_eq!(d.get_pot(PROJECT, USDT), 100);

    assert_eq!(b.get_bounties_count(), 0);
    assert_eq!(
        create_bounty(&mut b, &d, 50),
        Ok(Some(Event::BountyCreated { uid: 0, currency_id: USDT, amount: 50 }))
    );
    assert_eq!(b.get_bounties_count(), 1);
}

#[test]
fn it_works_for_validate_bounty() {
    let d = init_project_and_treasury();
    let mut b = Pallet::new(config());
    let recipient = 2;
    let bounty_id = 0;
    let block_duration = 1000u64;

    assert!(create_bounty(&mut b, &d, 50).is_ok());
    let bounty = b.get_bounty(bounty_id).unwrap();
    assert_eq!(bounty.status, BountyStatus::Proposed);
    assert_eq!(bounty.metadata, "Bounty1".as_bytes().to_vec());

    // Project admin activates bounty at block 100
    assert_eq!(
        b.activate_bounty(Origin::Signed(ADMIN), bounty_id, recipient, block_duration, 100, Some(ADMIN)),
        Ok(Some(Event::BountyActivated { bounty_id, recipient }))
    );
    let activated_bounty = b.get_bounty(bounty_id).unwrap();
    assert_eq!(activated_bounty.status, BountyStatus::Active);
    assert_eq!(activated_bounty.end, Some(1100));
}

#[test]
fn bounty_full_lifecycle_pays_recipient_once() {
    let mut d = init_project_and_treasury();
    let mut b = Pallet::new(config());
    assert_eq!(b.force_set_unlock_duration(Origin::Root, 10), Ok(None));
    assert!(create_bounty(&mut b, &d, 50).is_ok());
    assert!(b.activate_bounty(Origin::Signed(ADMIN), 0, 2, 1000, 100, Some(ADMIN)).is_ok());
    assert_eq!(
        b.submit_bounty(Origin::Signed(2), 0, vec![7, 7], 150),
        Ok(Some(Event::BountySubmitted { bounty_id: 0, who: 2 }))
    );
    assert_eq!(b.get_submission_hash(0), vec![7, 7]);
    assert_eq!(
        b.award_bounty(Origin::Signed(ADMIN), 0, 200, Some(ADMIN)),
        Ok(Some(Event::BountyAwarded { bounty_id: 0, unlock: 210 }))
    );
    assert_eq!(b.get_pending_payouts(210), vec![0]);
    assert_eq!(b.get_bounty(0).unwrap().status, BountyStatus::Awarded);

    // block 210 pays the bounty from the treasury
    let (weight, ids) = b.on_initialize(210, rocks_db_weight());
    assert_eq!(ids, vec![0]);
    assert_eq!(weight.ref_time(), 2 * (25_000_000 + 100_000_000));
    assert_eq!(weight.proof_size(), 0);
    assert!(b.get_pending_payouts(210).is_empty());
    let effects = b.do_make_payment(0, &mut d).unwrap();
    assert_eq!(
        effects.actions,
        vec![dex::Action::TransferCurrency { currency_id: USDT, from: dex_account(), to: 2, amount: 50 }]
    );
    assert_eq!(d.get_pot(PROJECT, USDT), 50);

    // nothing more is pending, and an awarded bounty cannot be awarded again
    let (_, ids) = b.on_initialize(210, rocks_db_weight());
    assert!(ids.is_empty());
    assert_eq!(
        b.award_bounty(Origin::Signed(ADMIN), 0, 300, Some(ADMIN)),
        Err(DispatchError::Bounties(Error::BountyNotSubmitted))
    );
}

#[test]
fn bounty_errors() {
    let mut d = init_project_and_treasury();
    let mut b = Pallet::new(config());
    // the treasury must hold more than the bounty
    assert_eq!(
        create_bounty(&mut b, &d, 100),
        Err(DispatchError::Bounties(Error::InsufficientTreasuryBalance))
    );
    assert_eq!(
        b.create_bounty(Origin::Signed(1), PROJECT, USDT, 1, vec![], &d),
        Err(DispatchError::BadOrigin)
    );
    assert!(create_bounty(&mut b, &d, 99).is_ok());

    assert_eq!(
        b.activate_bounty(Origin::Signed(3), 0, 2, 10, 1, Some(ADMIN)),
        Err(DispatchError::Bounties(Error::NotTheProjectAdmin))
    );
    assert_eq!(
        b.activate_bounty(Origin::Signed(ADMIN), 0, 2, 10, 1, None),
        Err(DispatchError::Bounties(Error::NotTheProjectAdmin))
    );
    assert_eq!(
        b.award_bounty(Origin::Signed(ADMIN), 0, 1, Some(ADMIN)),
        Err(DispatchError::Bounties(Error::BountyNotSubmitted))
    );
    assert_eq!(b.do_make_payment(0, &mut d).map(|_| ()), Err(DispatchError::Bounties(Error::BountyNotAwarded)));
    assert!(b.activate_bounty(Origin::Signed(ADMIN), 0, 2, 10, 1, Some(ADMIN)).is_ok());
    assert_eq!(
        b.activate_bounty(Origin::Signed(ADMIN), 0, 2, 10, 1, Some(ADMIN)),
        Err(DispatchError::Bounties(Error::BountyCannotBeAwarded))
    );
    // the deadline is block 11
    assert_eq!(b.submit_bounty(Origin::Signed(2), 0, vec![], 11), Err(DispatchError::Bounties(Error::BountyExpired)));
    assert_eq!(b.submit_bounty(Origin::Signed(3), 0, vec![], 5), Err(DispatchError::Bounties(Error::NotTheRecipient)));
    assert_eq!(b.submit_bounty(Origin::Root, 0, vec![], 5), Err(DispatchError::BadOrigin));

    // cancelling an active bounty; then it can be neither cancelled nor submitted
    assert_eq!(b.cancel_bounty(Origin::Signed(ADMIN), 0, Some(ADMIN)), Ok(Some(Event::BountyCancelled { bounty_id: 0 })));
    assert_eq!(
        b.cancel_bounty(Origin::Signed(ADMIN), 0, Some(ADMIN)),
        Err(DispatchError::Bounties(Error::BountyCannotBeCancelled))
    );
    assert_eq!(b.submit_bounty(Origin::Signed(2), 0, vec![], 5), Err(DispatchError::Bounties(Error::BountyNotAwarded)));
    assert_eq!(b.get_bounty(0).unwrap().status, BountyStatus::Cancelled);
    assert!(b.get_bounty(1).is_none());
}

#[test]
fn payouts_per_block_are_limited() {
    let d = init_project_and_treasury();
    let mut b = Pallet::new(Config { max_bounty_description: 100, max_bounty_submission: 100, max_concurrent_payouts: 1 });
    for id in 0..2u32 {
        assert!(create_bounty(&mut b, &d, 10).is_ok());
        assert!(b.activate_bounty(Origin::Signed(ADMIN), id, 2, 100, 0, Some(ADMIN)).is_ok());
        assert!(b.submit_bounty(Origin::Signed(2), id, vec![], 1).is_ok());
    }
    assert!(b.award_bounty(Origin::Signed(ADMIN), 0, 5, Some(ADMIN)).is_ok());
    assert_eq!(
        b.award_bounty(Origin::Signed(ADMIN), 1, 5, Some(ADMIN)),
        Err(DispatchError::Bounties(Error::MaxConcurrentPayoutsExceeded))
    );
    assert_eq!(b.get_bounty(1).unwrap().status, BountyStatus::Submitted);
    assert!(b.award_bounty(Origin::Signed(ADMIN), 1, 6, Some(ADMIN)).is_ok());
    assert_eq!(b.get_pending_payouts(5), vec![0]);
    assert_eq!(b.get_pending_payouts(6), vec![1]);
}

#[test]
fn initialising_weight_counts_payouts() {
    let mut b = Pallet::new(config());
    let db = RuntimeDbWeight { read: 2, write: 3 };
    let (weight, ids) = b.on_initialize(1, db);
    assert!(ids.is_empty());
    assert_eq!(weight.ref_time(), 5);
    let saturating = RuntimeDbWeight { read: u64::MAX, write: 1 };
    let (weight, _) = b.on_initialize(1, saturating);
    assert_eq!(weight.ref_time(), u64::MAX);
    let _ = ArithmeticError::Overflow;
}

#[test]
fn calls_on_a_missing_bounty_are_refused() {
    let mut d = init_project_and_treasury();
    let mut b = Pallet::new(config());
    let missing = Err(DispatchError::Bounties(Error::BountyDoesNotExist));
    assert_eq!(b.activate_bounty(Origin::Signed(ADMIN), 3, 2, 10, 1, Some(ADMIN)), missing);
    assert_eq!(b.cancel_bounty(Origin::Signed(ADMIN), 3, Some(ADMIN)), missing);
    assert_eq!(b.submit_bounty(Origin::Signed(2), 3, vec![], 1), missing);
    assert_eq!(b.award_bounty(Origin::Signed(ADMIN), 3, 1, Some(ADMIN)), missing);
    assert_eq!(b.do_make_payment(3, &mut d).map(|_| ()), Err(DispatchError::Bounties(Error::BountyDoesNotExist)));
    assert_eq!(b.activate_bounty(Origin::Unsigned, 3, 2, 10, 1, Some(ADMIN)), Err(DispatchError::BadOrigin));
    assert!(b.get_bounty(3).is_none());
    assert_eq!(b.get_bounties_count(), 0);
}

#[test]
fn submitting_before_activation_is_refused() {
    let d = init_project_and_treasury();
    let mut b = Pallet::new(config());
    assert!(create_bounty(&mut b, &d, 50).is_ok());
    assert_eq!(
        b.submit_bounty(Origin::Signed(2), 0, vec![1], 1),
        Err(DispatchError::Bounties(Error::BountyNotAwarded))
    );
    // cancelled before activation: still refused, and nothing is pending for it
    assert!(b.cancel_bounty(Origin::Signed(ADMIN), 0, Some(ADMIN)).is_ok());
    assert_eq!(
        b.submit_bounty(Origin::Signed(2), 0, vec![1], 1),
        Err(DispatchError::Bounties(Error::BountyNotAwarded))
    );
    let bounty = b.get_bounty(0).unwrap();
    assert_eq!(bounty.status, BountyStatus::Cancelled);
    assert_eq!((bounty.recipient, bounty.end, bounty.unlock), (None, None, None));
}

#[test]
fn cancelled_bounty_stays_cancelled() {
    let mut d = init_project_and_treasury();
    let mut b = Pallet::new(config());
    assert!(create_bounty(&mut b, &d, 50).is_ok());
    assert!(b.activate_bounty(Origin::Signed(ADMIN), 0, 2, 100, 1, Some(ADMIN)).is_ok());
    assert!(b.cancel_bounty(Origin::Signed(ADMIN), 0, Some(ADMIN)).is_ok());
    assert_eq!(
        b.activate_bounty(Origin::Signed(ADMIN), 0, 2, 100, 1, Some(ADMIN)),
        Err(DispatchError::Bounties(Error::BountyCannotBeAwarded))
    );
    assert_eq!(b.submit_bounty(Origin::Signed(2), 0, vec![], 2), Err(DispatchError::Bounties(Error::BountyNotAwarded)));
    assert_eq!(
        b.award_bounty(Origin::Signed(ADMIN), 0, 3, Some(ADMIN)),
        Err(DispatchError::Bounties(Error::BountyNotSubmitted))
    );
    assert_eq!(
        b.cancel_bounty(Origin::Signed(ADMIN), 0, Some(ADMIN)),
        Err(DispatchError::Bounties(Error::BountyCannotBeCancelled))
    );
    assert_eq!(b.do_make_payment(0, &mut d).map(|_| ()), Err(DispatchError::Bounties(Error::BountyNotAwarded)));
    assert_eq!(b.get_bounty(0).unwrap().status, BountyStatus::Cancelled);
    assert_eq!(d.get_pot(PROJECT, USDT), 100);
}
