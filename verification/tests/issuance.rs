use coretime_revenue::issuance::{
    assert_total_issuance, IssuanceMismatch, IssuanceWatcher, Observation, TotalIssuance,
};

fn issuance(relay: u128, para: u128) -> TotalIssuance {
    TotalIssuance { relay, para }
}

#[test]
fn equal_issuance_passes() {
    assert_eq!(assert_total_issuance(issuance(1, 2), issuance(1, 2)), Ok(()));
}

#[test]
fn issuance_must_be_equal_on_both_chains() {
    for actual in [issuance(1, 3), issuance(3, 2), issuance(2, 1)] {
        let expected = issuance(1, 2);
        assert_eq!(
            assert_total_issuance(actual, expected),
            Err(IssuanceMismatch { expected, actual })
        );
    }
}

#[test]
fn mint_and_burn_change_the_issuance() {
    assert_eq!(issuance(5, 5).minted_on_para(3), Some(issuance(5, 8)));
    assert_eq!(issuance(5, u128::MAX - 2).minted_on_para(3), None);
    assert_eq!(issuance(5, 4).burnt_on_both(3), Some(issuance(2, 1)));
    assert_eq!(issuance(5, 5).burnt_on_both(5), Some(issuance(0, 0)));
    assert_eq!(issuance(2, 5).burnt_on_both(3), None);
    assert_eq!(issuance(5, 2).burnt_on_both(3), None);
    // Minted on one chain and burnt on both, it is missing on the other.
    let both = issuance(5, 5).minted_on_para(3).and_then(|ti| ti.burnt_on_both(3));
    assert_eq!(both, Some(issuance(2, 5)));
}

#[test]
fn watcher_reports_changes_alone() {
    let mut watcher = IssuanceWatcher::new();
    assert_eq!(watcher.observe(0), Observation::Unchanged);
    assert_eq!(watcher.observe(100), Observation::Changed { issuance: 100, diff: 100 });
    assert_eq!(watcher.observe(100), Observation::Unchanged);
    assert_eq!(watcher.observe(70), Observation::Changed { issuance: 70, diff: -30 });
}

#[test]
fn watcher_reports_add_up() {
    let mut watcher = IssuanceWatcher::new();
    let mut sum = 0;
    for total in [40, 40, 900, 3, 0, 17] {
        if let Observation::Changed { diff, .. } = watcher.observe(total) {
            sum += diff;
        }
    }
    assert_eq!(sum, 17);
}

#[test]
fn large_issuance_wraps_around() {
    let mut watcher = IssuanceWatcher::new();
    assert_eq!(
        watcher.observe(u128::MAX),
        Observation::Changed { issuance: -1, diff: -1 }
    );
    assert_eq!(
        watcher.observe(1 << 127),
        Observation::Changed { issuance: i128::MIN, diff: i128::MIN + 1 }
    );
}

#[test]
fn watcher_does_not_keep_an_overflowing_reading() {
    let mut watcher = IssuanceWatcher::new();
    watcher.observe(1);
    assert_eq!(watcher.observe(1 << 127), Observation::Overflow);
    assert_eq!(watcher.observe(3), Observation::Changed { issuance: 3, diff: 2 });
}
