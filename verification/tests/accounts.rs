use coretime_revenue::accounts::alice;
use coretime_revenue::chain::AccountId;
use coretime_revenue::scenario::{Action, Scenario};

const ALICE: [u8; 32] = [
    0xd4, 0x35, 0x93, 0xc7, 0x15, 0xfd, 0xd3, 0x1c, 0x61, 0x14, 0x1a, 0xbd, 0x04, 0xa9, 0x9f, 0xd6,
    0x82, 0x2c, 0x85, 0x58, 0x85, 0x4c, 0xcd, 0xe3, 0x9a, 0x56, 0x84, 0xe7, 0xa5, 0x6d, 0xa2, 0x7d,
];

#[test]
fn alice_has_her_well_known_account() {
    assert_eq!(alice().0, ALICE);
    assert_eq!(alice(), alice());
}

#[test]
fn run_starts_for_the_development_account() {
    let (scenario, action) = Scenario::start_with_dev_account();
    assert_eq!(scenario.alice, AccountId(ALICE));
    assert_eq!(action, Action::MeasureIssuance);
}

#[test]
fn accounts_are_the_same_byte_for_byte() {
    let a = AccountId([7; 32]);
    let mut last = a;
    last.0[31] = 8;
    let mut first = a;
    first.0[0] = 8;
    assert!(a.same_as(&AccountId([7; 32])));
    assert!(!a.same_as(&last));
    assert!(!a.same_as(&first));
}
