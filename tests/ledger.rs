use anchor_lang::prelude::Pubkey;
use equinox::{can_validate, create_market, validate_paper, Market};

fn key(b: u8) -> Pubkey {
    Pubkey::new_from_array([b; 32])
}

fn fresh(now: i64) -> Market {
    create_market(key(1), "P1".to_string(), "Is X true?".to_string(), now + 1000, 100, now).unwrap()
}

#[test]
fn validate_twice_scenario() {
    let now: i64 = 1_000;
    let mut m = fresh(now);
    let market_key = key(9);
    let mut log = Vec::new();
    log.push(validate_paper(&mut m, market_key, key(2), 50, true, now + 1));
    log.push(validate_paper(&mut m, market_key, key(3), 75, false, now + 2));
    assert_eq!(m.validation_count, 2);
    assert_eq!(m.total_stake, 125);
    assert_eq!(log.len(), 2);
    assert_eq!(log[0].market, market_key);
    assert_eq!(log[0].validator, key(2));
    assert!(log[0].is_valid);
    assert_eq!(log[0].timestamp, now + 1);
    assert_eq!(log[1].market, market_key);
    assert_eq!(log[1].validator, key(3));
    assert!(!log[1].is_valid);
    assert_eq!(log[1].timestamp, now + 2);
}

#[test]
fn validate_counts_n_calls_and_sums_balances() {
    let mut m = fresh(0);
    let balances: [u64; 5] = [0, 1, 10, 100, 1_000_000];
    let mut events = 0usize;
    for (i, b) in balances.iter().enumerate() {
        let ev = validate_paper(&mut m, key(9), key(i as u8), *b, i % 2 == 0, 5);
        assert_eq!(ev.validator, key(i as u8));
        assert_eq!(ev.is_valid, i % 2 == 0);
        events += 1;
    }
    assert_eq!(m.validation_count, 5);
    assert_eq!(m.total_stake, 1_000_111);
    assert_eq!(events, 5);
}

#[test]
fn validate_leaves_other_fields_unchanged() {
    let mut m = fresh(0);
    validate_paper(&mut m, key(9), key(2), 33, true, 7);
    assert_eq!(m.owner, key(1));
    assert_eq!(m.paper_id, "P1");
    assert_eq!(m.question, "Is X true?");
    assert_eq!(m.resolution_date, 1000);
    assert_eq!(m.initial_stake, 100);
}

#[test]
fn validate_same_validator_may_vote_repeatedly() {
    let mut m = fresh(0);
    validate_paper(&mut m, key(9), key(2), 10, true, 1);
    validate_paper(&mut m, key(9), key(2), 10, true, 2);
    assert_eq!(m.validation_count, 2);
    assert_eq!(m.total_stake, 20);
}

#[test]
fn validate_after_resolution_date_is_still_recorded() {
    let mut m = fresh(0);
    let ev = validate_paper(&mut m, key(9), key(2), 5, false, 5_000);
    assert_eq!(m.validation_count, 1);
    assert_eq!(m.total_stake, 5);
    assert_eq!(ev.timestamp, 5_000);
}

#[test]
fn can_validate_at_the_edges() {
    let mut m = fresh(0);
    assert!(can_validate(&m, u64::MAX));
    m.total_stake = u64::MAX - 10;
    assert!(can_validate(&m, 10));
    assert!(!can_validate(&m, 11));
    m.total_stake = 0;
    m.validation_count = u64::MAX - 1;
    assert!(can_validate(&m, 0));
    m.validation_count = u64::MAX;
    assert!(!can_validate(&m, 0));
}
