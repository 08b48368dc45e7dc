use coretime_revenue::chain::{AccountId, Payload, Sale};
use coretime_revenue::events::{
    Awaited, BrokerEvent, EventLog, Poll, UndecodableEvent, POLL_INTERVAL_SECS,
};

const SLEEP: Poll = Poll::Sleep { seconds: 6 };
const SALE: Sale = Sale {
    sale_start: 200,
    leadin_length: 1,
    start_price: 90_000_000,
    end_price: 45_000_000,
    region_begin: 30,
    region_end: 31,
    ideal_cores_sold: 0,
    cores_offered: 1,
};

fn record(log: &mut EventLog<Payload>, block: u64, pallet: &str, variant: &str, details: Payload) {
    log.record(block, pallet.to_string(), variant.to_string(), details);
}

fn sale(log: &mut EventLog<Payload>, block: u64) {
    record(log, block, "Broker", "SaleInitialized", Payload::SaleInitialized(SALE));
}

fn claims(log: &mut EventLog<Payload>, block: u64, when: u32, private_payout: u128) {
    record(log, block, "Broker", "ClaimsReady", Payload::ClaimsReady { when, private_payout });
}

#[test]
fn empty_log_makes_a_wait_sleep() {
    let mut log = EventLog::new();
    assert_eq!(POLL_INTERVAL_SECS, 6);
    assert_eq!(log.poll(&Awaited::SaleInitialized), SLEEP);
}

#[test]
fn mint_is_awaited_for_one_account() {
    let alice = AccountId([1; 32]);
    let bob = AccountId([2; 32]);
    let mut log = EventLog::new();
    record(&mut log, 1, "Balances", "Minted", Payload::Minted { who: bob });
    assert_eq!(log.poll(&Awaited::Minted { to: alice }), SLEEP);
    record(&mut log, 2, "Balances", "Minted", Payload::Minted { who: alice });
    let found = log.poll(&Awaited::Minted { to: alice });
    assert_eq!(found, Poll::Found(Payload::Minted { who: alice }));
    // The mint for the other account lies before the one that was found.
    assert_eq!(log.poll(&Awaited::Minted { to: bob }), SLEEP);
}

#[test]
fn wait_consumes_its_block_and_those_before() {
    let mut log = EventLog::new();
    claims(&mut log, 3, 10, 1);
    sale(&mut log, 4);
    claims(&mut log, 5, 20, 2);
    claims(&mut log, 5, 21, 3);
    claims(&mut log, 6, 22, 4);
    assert_eq!(
        log.poll(&Awaited::ClaimsReady { when: 20 }),
        Poll::Found(Payload::ClaimsReady { when: 20, private_payout: 2 })
    );
    assert_eq!(log.poll(&Awaited::ClaimsReady { when: 10 }), SLEEP);
    assert_eq!(log.poll(&Awaited::SaleInitialized), SLEEP);
    assert_eq!(log.poll(&Awaited::ClaimsReady { when: 21 }), SLEEP);
    assert_eq!(
        log.poll(&Awaited::ClaimsReady { when: 22 }),
        Poll::Found(Payload::ClaimsReady { when: 22, private_payout: 4 })
    );
}

#[test]
fn wait_finds_the_oldest_entry_not_the_lowest_block() {
    let mut log = EventLog::new();
    claims(&mut log, 9, 10, 1);
    claims(&mut log, 7, 10, 2);
    claims(&mut log, 8, 11, 3);
    claims(&mut log, 10, 11, 4);
    assert_eq!(
        log.poll(&Awaited::ClaimsReady { when: 10 }),
        Poll::Found(Payload::ClaimsReady { when: 10, private_payout: 1 })
    );
    assert_eq!(log.poll(&Awaited::ClaimsReady { when: 10 }), SLEEP);
    assert_eq!(
        log.poll(&Awaited::ClaimsReady { when: 11 }),
        Poll::Found(Payload::ClaimsReady { when: 11, private_payout: 4 })
    );
}

#[test]
fn two_sales_of_different_blocks_end_two_waits() {
    let mut log = EventLog::new();
    sale(&mut log, 1);
    sale(&mut log, 1);
    sale(&mut log, 2);
    assert_eq!(log.poll(&Awaited::SaleInitialized), Poll::Found(Payload::SaleInitialized(SALE)));
    assert_eq!(log.poll(&Awaited::SaleInitialized), Poll::Found(Payload::SaleInitialized(SALE)));
    assert_eq!(log.poll(&Awaited::SaleInitialized), SLEEP);
}

#[test]
fn history_is_awaited_for_one_timeslice() {
    let mut log = EventLog::new();
    let early = Payload::HistoryInitialized { when: 4, private_pool_size: 0 };
    let right = Payload::HistoryInitialized { when: 5, private_pool_size: 80 };
    record(&mut log, 1, "Broker", "HistoryInitialized", early);
    record(&mut log, 1, "Broker", "HistoryInitialized", right);
    assert_eq!(log.poll(&Awaited::HistoryInitialized { when: 5 }), Poll::Found(right));
}

#[test]
fn names_are_compared_before_anything_is_decoded() {
    let mut log = EventLog::new();
    record(&mut log, 1, "Broker", "ClaimsReady", Payload::Other);
    record(&mut log, 1, "Other", "SaleInitialized", Payload::Other);
    record(&mut log, 2, "Broker", "SaleInitialized", Payload::SaleInitialized(SALE));
    assert_eq!(log.poll(&Awaited::SaleInitialized), Poll::Found(Payload::SaleInitialized(SALE)));
}

#[test]
fn undecodable_event_of_the_awaited_name_ends_a_wait() {
    let mut log = EventLog::new();
    record(&mut log, 1, "Broker", "SaleInitialized", Payload::Other);
    sale(&mut log, 2);
    assert_eq!(log.poll(&Awaited::SaleInitialized), Poll::Undecodable);
    // The log is as it was.
    assert_eq!(log.poll(&Awaited::SaleInitialized), Poll::Undecodable);
}

#[test]
fn undecodable_event_after_the_awaited_one_does_no_harm() {
    let mut log = EventLog::new();
    sale(&mut log, 1);
    record(&mut log, 2, "Broker", "SaleInitialized", Payload::Other);
    assert_eq!(log.poll(&Awaited::SaleInitialized), Poll::Found(Payload::SaleInitialized(SALE)));
    assert_eq!(log.poll(&Awaited::SaleInitialized), Poll::Undecodable);
}

#[test]
fn any_predicate_can_be_searched_with() {
    let mut log: EventLog<u8> = EventLog::new();
    log.record(1, "A".to_string(), "X".to_string(), 1);
    log.record(2, "A".to_string(), "Y".to_string(), 9);
    log.record(3, "A".to_string(), "X".to_string(), 5);
    log.record(4, "A".to_string(), "X".to_string(), 6);
    let big = |details: &u8| if *details == 0 { None } else { Some(*details > 4) };
    let taken = log.take_first("A", "X", big).unwrap().unwrap();
    assert_eq!((taken.block, taken.pallet.as_str(), taken.variant.as_str()), (3, "A", "X"));
    assert_eq!(taken.details, 5);
    assert_eq!(log.take_first("A", "X", big).unwrap().unwrap().block, 4);
    assert!(log.take_first("A", "X", big).unwrap().is_none());
    log.record(5, "A".to_string(), "X".to_string(), 0);
    assert_eq!(log.take_first("A", "X", big).err(), Some(UndecodableEvent));
}

#[test]
fn broker_events_are_classified() {
    let classify = |pallet: &str, variant: &str| {
        BrokerEvent::classify(&pallet.to_string(), &variant.to_string())
    };
    assert_eq!(classify("Broker", "Purchased"), Some(BrokerEvent::Purchased));
    assert_eq!(classify("Broker", "SaleInitialized"), Some(BrokerEvent::SaleInitialized));
    assert_eq!(classify("Broker", "HistoryInitialized"), Some(BrokerEvent::HistoryInitialized));
    assert_eq!(classify("Broker", "CoreAssigned"), Some(BrokerEvent::CoreAssigned));
    assert_eq!(classify("Broker", "Pooled"), Some(BrokerEvent::Pooled));
    assert_eq!(classify("Broker", "ClaimsReady"), Some(BrokerEvent::ClaimsReady));
    assert_eq!(classify("Broker", "RevenueClaimBegun"), Some(BrokerEvent::RevenueClaimBegun));
    assert_eq!(classify("Broker", "RevenueClaimItem"), Some(BrokerEvent::RevenueClaimItem));
    assert_eq!(classify("Broker", "RevenueClaimPaid"), Some(BrokerEvent::RevenueClaimPaid));
    assert_eq!(classify("Broker", "Renewed"), None);
    assert_eq!(classify("Balances", "Purchased"), None);
    assert_eq!(classify("broker", "Purchased"), None);
}

#[test]
fn recording_says_what_is_worth_tracing() {
    let mut log: EventLog<u8> = EventLog::new();
    assert_eq!(
        log.record(1, "Broker".to_string(), "Pooled".to_string(), 0),
        Some(BrokerEvent::Pooled)
    );
    assert_eq!(log.record(1, "System".to_string(), "ExtrinsicSuccess".to_string(), 0), None);
}

#[test]
fn awaited_events_have_their_names() {
    let mint = Awaited::Minted { to: AccountId([0; 32]) };
    assert_eq!((mint.pallet(), mint.variant()), ("Balances", "Minted"));
    let sale = Awaited::SaleInitialized;
    assert_eq!((sale.pallet(), sale.variant()), ("Broker", "SaleInitialized"));
    let history = Awaited::HistoryInitialized { when: 1 };
    assert_eq!((history.pallet(), history.variant()), ("Broker", "HistoryInitialized"));
    let claims = Awaited::ClaimsReady { when: 1 };
    assert_eq!((claims.pallet(), claims.variant()), ("Broker", "ClaimsReady"));
    assert_eq!(claims.accepts(&Payload::ClaimsReady { when: 1, private_payout: 0 }), Some(true));
    assert_eq!(claims.accepts(&Payload::ClaimsReady { when: 2, private_payout: 0 }), Some(false));
    assert_eq!(claims.accepts(&Payload::SaleInitialized(SALE)), None);
}
