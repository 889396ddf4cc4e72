use presale::pricing::{bonding_curve_cost, presale_price};
use presale::presale::{next_project_id, PolkadotPresaleContract};
use presale::token_factory::{deployment_salt, TokenFactory};
use presale::token_lock::TokenLock;
use presale::types::{AccountId, CallContext, Error, NativeTransfer, TokenTransfer};

fn account(n: u128) -> AccountId {
    AccountId::new(7, n)
}

fn ctx(caller: u128, now: u64, value: u128) -> CallContext {
    CallContext { caller: account(caller), now, transferred_value: value }
}

struct World {
    engine: PolkadotPresaleContract,
    factory: TokenFactory,
    lock: TokenLock,
}

fn world(fee: u128) -> World {
    World {
        engine: PolkadotPresaleContract::new(account(1000)),
        factory: TokenFactory::new(&ctx(999, 0, 0), [0u8; 32], fee),
        lock: TokenLock::new(account(2000)),
    }
}

fn create(w: &mut World, max_supply: u128, lock_amount: u128, start: u64, end: u64) -> Result<u32, Error> {
    w.engine
        .create_presale(
            &ctx(1, 10, 0),
            &mut w.factory,
            &mut w.lock,
            max_supply,
            "my_token".to_string(),
            "MT".to_string(),
            4,
            "Logo".to_string(),
            lock_amount,
            50,
            3000,
            start,
            end,
        )
        .map(|c| c.project_id)
}

#[test]
fn price_matches_formula() {
    let e = PolkadotPresaleContract::new(account(1));
    assert_eq!(e.calculate_price(0, 10), Ok(50));
    assert_eq!(e.calculate_price(95, 10), Ok(1000));
    assert_eq!(e.calculate_price(3, 4), Ok(20));
    assert_eq!(e.calculate_price(0, 3), Ok(4));
    assert_eq!(presale_price(600, 1), Ok(600));
}

#[test]
fn price_of_nothing_is_zero() {
    let e = PolkadotPresaleContract::new(account(1));
    assert_eq!(e.calculate_price(0, 0), Ok(0));
    assert_eq!(e.calculate_price(12345, 0), Ok(0));
    assert_eq!(e.calculate_price(u128::MAX, 0), Ok(0));
}

#[test]
fn price_overflow_is_an_error() {
    let e = PolkadotPresaleContract::new(account(1));
    assert_eq!(e.calculate_price(u128::MAX, 1), Err(Error::Overflow));
    assert_eq!(e.calculate_price(0, u128::MAX), Err(Error::Overflow));
    assert_eq!(e.calculate_price(u128::MAX / 2, 2), Err(Error::Overflow));
}

#[test]
fn general_curve_cost() {
    // unit prices 2*1+3 = 5 and 2*3+3 = 9: (5 + 9) * 2 / 2
    assert_eq!(bonding_curve_cost(2, 3, 1, 2), Ok(14));
    assert_eq!(bonding_curve_cost(0, 7, 10, 3), Ok(21));
    assert_eq!(bonding_curve_cost(5, 5, u128::MAX, 0), Ok(0));
    assert_eq!(bonding_curve_cost(0, 0, u128::MAX, 1), Err(Error::Overflow));
}

#[test]
fn contribute_window() {
    let mut w = world(0);
    let id = create(&mut w, 10_000, 0, 100, 200).unwrap();
    assert_eq!(w.engine.join_project_presale(&ctx(5, 50, 1_000_000), id, 10), Err(Error::NotStarted));
    assert_eq!(w.engine.join_project_presale(&ctx(5, 200, 1_000_000), id, 10), Err(Error::Ended));
    assert_eq!(w.engine.get_project(id).unwrap().presaled_amount, 0);
    assert_eq!(w.engine.join_project_presale(&ctx(5, 150, 1_000_000), id, 10), Ok(50));
    assert_eq!(w.engine.join_project_presale(&ctx(5, 100, 1_000_000), id, 10), Ok(150));
    let p = w.engine.get_project(id).unwrap();
    assert_eq!(p.presaled_amount, 20);
    assert_eq!(p.raised_amount, 200);
    assert_eq!(p.contributors, vec![account(5), account(5)]);
}

#[test]
fn contribute_payment_must_exceed_cost() {
    let mut w = world(0);
    let id = create(&mut w, 10_000, 0, 100, 200).unwrap();
    assert_eq!(w.engine.join_project_presale(&ctx(5, 150, 5000), id, 95), Ok(4512));
    assert_eq!(w.engine.calculate_price(95, 10), Ok(1000));
    assert_eq!(w.engine.join_project_presale(&ctx(6, 150, 1000), id, 10), Err(Error::InsufficientPayment));
    assert_eq!(w.engine.get_project(id).unwrap().presaled_amount, 95);
    assert_eq!(w.engine.join_project_presale(&ctx(6, 150, 1001), id, 10), Ok(1000));
    let p = w.engine.get_project(id).unwrap();
    assert_eq!(p.presaled_amount, 105);
    assert_eq!(p.raised_amount, 5512);
    assert_eq!(p.contributors, vec![account(5), account(6)]);
}

#[test]
fn contribute_allocation_is_strict() {
    let mut w = world(0);
    let id = create(&mut w, 1000, 0, 100, 200).unwrap();
    assert_eq!(w.engine.get_project(id).unwrap().total_presale_token_amount, 1000);
    assert_eq!(w.engine.join_project_presale(&ctx(5, 150, 1_000_000), id, 600), Ok(180_000));
    assert_eq!(w.engine.get_project(id).unwrap().presaled_amount, 600);
    assert_eq!(w.engine.join_project_presale(&ctx(5, 150, u128::MAX), id, 600), Err(Error::InsufficientAmount));
    assert_eq!(w.engine.join_project_presale(&ctx(5, 150, u128::MAX), id, 400), Err(Error::InsufficientAmount));
    assert_eq!(w.engine.join_project_presale(&ctx(5, 150, u128::MAX), id, 399), Ok((1200 + 399) * 399 / 2));
    assert_eq!(w.engine.get_project(id).unwrap().presaled_amount, 999);
}

#[test]
fn contribute_unknown_project() {
    let mut w = world(0);
    assert_eq!(w.engine.join_project_presale(&ctx(5, 150, 10), 1, 1), Err(Error::ProjectNotFound));
    assert_eq!(w.engine.join_project_presale(&ctx(5, 150, 10), 0, 1), Err(Error::ProjectNotFound));
}

#[test]
fn contribute_price_overflow() {
    let mut w = world(0);
    let id = create(&mut w, u128::MAX, 0, 100, 200).unwrap();
    assert_eq!(w.engine.join_project_presale(&ctx(5, 150, u128::MAX), id, u128::MAX / 2), Err(Error::Overflow));
}

#[test]
fn project_ids_count_from_one() {
    let mut w = world(0);
    assert_eq!(w.engine.last_project_id(), 0);
    assert_eq!(create(&mut w, 100, 10, 1, 2), Ok(1));
    assert_eq!(create(&mut w, 100, 10, 1, 2), Ok(2));
    assert_eq!(create(&mut w, 100, 10, 1, 2), Ok(3));
    assert_eq!(w.engine.last_project_id(), 3);
    assert!(w.engine.get_project(4).is_none());
    let p = w.engine.get_project(2).unwrap();
    assert_eq!(p.total_presale_token_amount, 90);
    assert_eq!(p.creator, account(1));
    assert!(!p.is_finished);
}

#[test]
fn create_refusals_change_nothing() {
    let mut w = world(500);
    assert_eq!(create(&mut w, 100, 101, 1, 2), Err(Error::LockExceedsSupply));
    assert_eq!(create(&mut w, 100, 10, 2, 2), Err(Error::InvalidWindow));
    assert_eq!(create(&mut w, 100, 10, 1, 2), Err(Error::FeeTooLow));
    assert_eq!(w.engine.last_project_id(), 0);
    assert_eq!(w.factory.token_count(), 0);
    let r = w.engine.create_presale(
        &ctx(1, 10, 500),
        &mut w.factory,
        &mut w.lock,
        100,
        "a".to_string(),
        "A".to_string(),
        0,
        "".to_string(),
        10,
        50,
        30,
        1,
        2,
    );
    let created = r.unwrap();
    assert_eq!(created.project_id, 1);
    assert_eq!(
        created.lock_transfer,
        TokenTransfer { token: created.token, from: account(1000), to: account(2000), amount: 10 }
    );
    let lock = w.lock.get_lock(created.token).unwrap();
    assert_eq!(lock.token_owner, account(1));
    assert_eq!(lock.locked_amount, 10);
    assert_eq!(lock.start_time, 10);
    assert_eq!(lock.duration_time, 50);
}

#[test]
fn finish_after_window() {
    let mut w = world(0);
    let id = create(&mut w, 10_000, 0, 100, 200).unwrap();
    assert_eq!(w.engine.join_project_presale(&ctx(5, 150, 2000), id, 45), Ok(1012));
    assert_eq!(w.engine.finish_presale(&ctx(1, 199, 0), id), Err(Error::NotEnded));
    assert_eq!(w.engine.finish_presale(&ctx(1, 200, 0), id), Ok(true));
    let p = w.engine.get_project(id).unwrap();
    assert!(p.is_finished);
    assert!(p.is_successful);
    assert_eq!(w.engine.finish_presale(&ctx(1, 300, 0), id), Err(Error::AlreadyFinished));
    assert_eq!(w.engine.finish_presale(&ctx(1, 300, 0), 9), Err(Error::ProjectNotFound));
}

#[test]
fn finish_below_a_third_fails() {
    let mut w = world(0);
    let id = create(&mut w, 10_000, 0, 100, 200).unwrap();
    assert_eq!(w.engine.join_project_presale(&ctx(5, 150, 2000), id, 44), Ok(968));
    assert_eq!(w.engine.finish_presale(&ctx(1, 250, 0), id), Ok(false));
    assert!(!w.engine.get_project(id).unwrap().is_successful);
    assert_eq!(w.engine.join_project_presale(&ctx(5, 150, 2000), id, 1), Err(Error::AlreadyFinished));
}

#[test]
fn release_lock_after_maturity() {
    let mut lock = TokenLock::new(account(2000));
    let token = account(77);
    let t = lock.create_lock(&ctx(1, 100, 0), token, account(3), 500, 50);
    assert_eq!(t, TokenTransfer { token, from: account(1), to: account(2000), amount: 500 });
    assert_eq!(lock.release_lock(&ctx(3, 149, 0), token), Err(Error::LockNotExpired));
    assert_eq!(
        lock.release_lock(&ctx(3, 150, 0), token),
        Ok(TokenTransfer { token, from: account(2000), to: account(3), amount: 500 })
    );
    assert_eq!(lock.release_lock(&ctx(3, 151, 0), token), Err(Error::LockNotFound));
}

#[test]
fn release_lock_later_and_unknown() {
    let mut lock = TokenLock::new(account(2000));
    assert_eq!(lock.release_lock(&ctx(3, 1, 0), account(1)), Err(Error::LockNotFound));
    lock.create_lock(&ctx(1, 100, 0), account(77), account(3), 500, 50);
    lock.create_lock(&ctx(1, 100, 0), account(78), account(4), 9, u64::MAX);
    assert_eq!(
        lock.release_lock(&ctx(3, 1000, 0), account(77)),
        Ok(TokenTransfer { token: account(77), from: account(2000), to: account(3), amount: 500 })
    );
    assert_eq!(lock.release_lock(&ctx(3, u64::MAX, 0), account(78)), Err(Error::LockNotExpired));
    assert_eq!(lock.get_lock(account(78)).unwrap().locked_amount, 9);
}

#[test]
fn create_lock_replaces_earlier_record() {
    let mut lock = TokenLock::new(account(2000));
    lock.create_lock(&ctx(1, 100, 0), account(77), account(3), 500, 50);
    lock.create_lock(&ctx(1, 120, 0), account(77), account(4), 20, 5);
    let d = lock.get_lock(account(77)).unwrap();
    assert_eq!(d.token_owner, account(4));
    assert_eq!(d.locked_amount, 20);
    assert_eq!(d.start_time, 120);
    assert_eq!(lock.release_lock(&ctx(3, 125, 0), account(77)).unwrap().amount, 20);
}

#[test]
fn create_token_fee_threshold() {
    let mut f = TokenFactory::new(&ctx(9, 0, 0), [1u8; 32], 500);
    assert_eq!(f.get_fee(), 500);
    assert_eq!(
        f.create_token(&ctx(1, 10, 499), 100_000_000, "my_token".to_string(), "MT".to_string(), 4, "Logo".to_string()),
        Err(Error::FeeTooLow)
    );
    assert_eq!(f.token_count(), 0);
    let a = f
        .create_token(&ctx(1, 10, 500), 100_000_000, "my_token".to_string(), "MT".to_string(), 4, "Logo".to_string())
        .unwrap();
    let b = f
        .create_token(&ctx(1, 10, 500), 5, "other".to_string(), "OT".to_string(), 2, "L2".to_string())
        .unwrap();
    assert_ne!(a, b);
    assert_eq!(f.token_count(), 2);
    assert_eq!(
        f.get_token_info(a),
        Ok(("my_token".to_string(), "MT".to_string(), 4, "Logo".to_string()))
    );
    assert_eq!(f.get_token_info(b), Ok(("other".to_string(), "OT".to_string(), 2, "L2".to_string())));
    assert_eq!(f.get_token_info(account(1)), Err(Error::TokenNotFound));
    assert!(f.contains_token(a));
    assert!(f.contains_token(b));
    assert!(!f.contains_token(AccountId::new(0, 3)));
    assert!(!f.contains_token(AccountId::new(0, 0)));
}

#[test]
fn withdraw_owner_only() {
    let f = TokenFactory::new(&ctx(9, 0, 0), [1u8; 32], 500);
    assert_eq!(f.get_owner(), account(9));
    assert_eq!(f.withdraw(&ctx(1, 0, 0), 1000, 10), Err(Error::Unauthorized));
    assert_eq!(f.withdraw(&ctx(9, 0, 0), 9, 10), Err(Error::InsufficientBalance));
    assert_eq!(f.withdraw(&ctx(9, 0, 0), 10, 10), Ok(NativeTransfer { to: account(9), amount: 10 }));
}

#[test]
fn salt_is_hashed_from_the_clock() {
    let s0 = deployment_salt(0);
    let s1 = deployment_salt(1);
    assert_eq!(s0.len(), 4);
    assert_ne!(s0, vec![0, 0, 0, 0]);
    assert_ne!(s1, vec![1, 0, 0, 0]);
    assert_ne!(s0, s1);
    assert_eq!(deployment_salt(1), s1);
}

#[test]
fn project_id_counter_does_not_wrap() {
    assert_eq!(next_project_id(0), Ok(1));
    assert_eq!(next_project_id(41), Ok(42));
    assert_eq!(next_project_id(u32::MAX - 1), Ok(u32::MAX));
    assert_eq!(next_project_id(u32::MAX), Err(Error::Overflow));
}
