use channel_builder::helpers::{retry_on_err, RetryErr, SessType};

fn always_fail() -> Result<(), ()> {
    Err(())
}

fn succeed() -> Result<u32, ()> {
    Ok(4)
}

#[test]
fn retry_fail() {
    let result = retry_on_err(1, || {}, always_fail);
    let expected = Err(RetryErr::RetriesExhausted);
    assert_eq!(expected, result);
}

#[test]
fn retry_noretries() {
    let result = retry_on_err(0, || {}, succeed);
    let expected = Err(RetryErr::RetriesExhausted);
    assert_eq!(expected, result);
}

#[test]
fn retry_succeed() {
    let result = retry_on_err(1, || {}, succeed);
    let expected = Ok(4);
    assert_eq!(expected, result);
}

#[test]
fn retry_pauses_between_failures() {
    let pauses = std::cell::Cell::new(0u32);
    let result = retry_on_err(3, || pauses.set(pauses.get() + 1), always_fail);
    assert_eq!(Err(RetryErr::RetriesExhausted), result);
    assert_eq!(3, pauses.get());
}

#[test]
fn max_ages_per_class() {
    assert_eq!(7200, SessType::Frontend.get_max_age());
    assert_eq!(525600, SessType::Roku.get_max_age());
    assert_eq!(525600, SessType::Display.get_max_age());
    assert_eq!(432000, SessType::Frontend.max_age_secs());
    assert_eq!(31536000, SessType::Roku.max_age_secs());
}

#[test]
fn expiry_boundary() {
    let max = SessType::Frontend.max_age_secs();
    assert!(!SessType::Frontend.expired(1000, 1000 + max));
    assert!(SessType::Frontend.expired(1000, 1000 + max + 1));
    assert!(!SessType::Frontend.expired(i64::MAX, i64::MIN));
    assert!(SessType::Frontend.expired(i64::MIN, i64::MAX));
}

#[test]
fn only_devices_refresh() {
    assert!(!SessType::Frontend.may_refresh());
    assert!(SessType::Roku.may_refresh());
    assert!(SessType::Display.may_refresh());
}
