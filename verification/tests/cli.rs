use e7::cli::{skystones_spent, LimitError, RunLimit};

#[test]
fn skystones_divide_by_three() {
    assert_eq!(RunLimit::Skystones(300).refreshes().unwrap(), 100);
    assert_eq!(RunLimit::Skystones(301).refreshes().unwrap(), 100);
}

#[test]
fn refreshes_pass_through() {
    assert_eq!(RunLimit::Refreshes(7).refreshes().unwrap(), 7);
}

#[test]
fn too_few_skystones_is_error() {
    assert!(RunLimit::Skystones(2).refreshes().is_err());
}

#[test]
fn skystone_edges() {
    assert_eq!(RunLimit::Skystones(3).refreshes(), Ok(1));
    assert_eq!(RunLimit::Skystones(0).refreshes(), Err(LimitError::TooFewSkystones));
    assert_eq!(RunLimit::Refreshes(0).refreshes(), Ok(0));
    assert_eq!(skystones_spent(100), 300);
    assert_eq!(skystones_spent(u32::MAX), 3 * u32::MAX as u64);
}
