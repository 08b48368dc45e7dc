use coretime_revenue::chain::{AccountId, Payload, RegionId, Sale};
use coretime_revenue::events::Awaited;
use coretime_revenue::issuance::{IssuanceMismatch, TotalIssuance};
use coretime_revenue::scenario::{
    broker_setup, watchers, Action, BrokerCall, BrokerConfig, Call, Chain, Failure, Finality,
    Receipt, Reply, Scenario, Signer, Stage, Watcher, HALF_BASE_FEE, ON_DEMAND_BASE_FEE,
    RUN_LENGTH,
};

const ALICE: AccountId = AccountId([1; 32]);
const BOUGHT: RegionId = RegionId { begin: 30, core: 1, mask: [0xff; 10] };
const POOLED: RegionId = RegionId { begin: 31, core: 2, mask: [0x0f; 10] };
const PRICE: u128 = 45_000_000;
const SALE: Sale = Sale {
    sale_start: 200,
    leadin_length: 1,
    start_price: 90_000_000,
    end_price: 45_000_000,
    region_begin: 30,
    region_end: 31,
    ideal_cores_sold: 0,
    cores_offered: 1,
};

fn issuance(relay: u128, para: u128) -> Reply {
    Reply::Issuance(TotalIssuance { relay, para })
}

fn good_replies() -> Vec<Reply> {
    vec![
        issuance(10_000_000_000, 5_000_000_000),
        Reply::Watching,
        Reply::Pushed,
        Reply::Event(Payload::Minted { who: ALICE }),
        issuance(10_000_000_000, 6_500_000_000),
        Reply::Pushed,
        Reply::Event(Payload::SaleInitialized(SALE)),
        Reply::Event(Payload::SaleInitialized(SALE)),
        Reply::Receipt(Receipt::Purchased { region: BOUGHT, price: PRICE }),
        Reply::Receipt(Receipt::Pooled { region: POOLED, duration: 3 }),
        Reply::Event(Payload::HistoryInitialized { when: 31, private_pool_size: 80 }),
        Reply::Receipt(Receipt::OrderPlaced { spot_price: 50_000_000 }),
        Reply::Event(Payload::ClaimsReady { when: 31, private_payout: 25_000_000 }),
        issuance(9_955_000_000, 6_505_000_000),
        Reply::Receipt(Receipt::ClaimPaid { amount: 25_000_000 }),
        Reply::Event(Payload::SaleInitialized(SALE)),
        Reply::Event(Payload::SaleInitialized(SALE)),
        issuance(9_930_000_000, 6_480_000_000),
    ]
}

/// Feeds replies until one fails, and returns what came of the last one.
fn drive(replies: &[Reply]) -> (Scenario, Result<Action, Failure>) {
    let (mut scenario, action) = Scenario::start(ALICE);
    let mut outcome = Ok(action);
    for reply in replies {
        outcome = scenario.step(reply);
        if outcome.is_err() {
            break;
        }
    }
    (scenario, outcome)
}

/// What comes of a run that goes well up to `at` and gets `reply` there.
fn with_reply(at: usize, reply: Reply) -> Result<Action, Failure> {
    let mut replies = good_replies();
    replies.truncate(at);
    replies.push(reply);
    drive(&replies).1
}

#[test]
fn good_run_succeeds() {
    let replies = good_replies();
    assert_eq!(replies.len(), RUN_LENGTH);
    let (scenario, outcome) = drive(&replies);
    assert_eq!(outcome, Ok(Action::Finish));
    assert_eq!(scenario.stage, Stage::Finished);
    assert_eq!(scenario.expected, TotalIssuance { relay: 9_930_000_000, para: 6_480_000_000 });
}

#[test]
fn actions_follow_in_order() {
    let submit = |chain: Chain, signer: Signer, call: Call| Action::Submit { chain, signer, call };
    let expected = [
        Action::MeasureIssuance,
        Action::StartWatchers,
        submit(
            Chain::Relay,
            Signer::Alice,
            Call::TeleportAssets {
                para_id: 1005,
                beneficiary: ALICE,
                amount: 1_500_000_000,
                fee_asset_item: 0,
            },
        ),
        Action::WaitFor(Awaited::Minted { to: ALICE }),
        Action::MeasureIssuance,
        submit(Chain::Para, Signer::Alice, Call::SetUpBroker),
        Action::WaitFor(Awaited::SaleInitialized),
        Action::WaitFor(Awaited::SaleInitialized),
        submit(Chain::Para, Signer::Alice, Call::Purchase { price_limit: 1_000_000_000 }),
        submit(
            Chain::Para,
            Signer::Alice,
            Call::Pool { region: BOUGHT, payee: ALICE, finality: Finality::Final },
        ),
        Action::WaitFor(Awaited::HistoryInitialized { when: 31 }),
        submit(
            Chain::Relay,
            Signer::Bob,
            Call::PlaceOrder { max_amount: 100_000_000, para_id: 100 },
        ),
        Action::WaitFor(Awaited::ClaimsReady { when: 31 }),
        Action::MeasureIssuance,
        submit(
            Chain::Para,
            Signer::Alice,
            Call::ClaimRevenue { region: POOLED, max_timeslices: 3 },
        ),
        Action::WaitFor(Awaited::SaleInitialized),
        Action::WaitFor(Awaited::SaleInitialized),
        Action::MeasureIssuance,
        Action::Finish,
    ];
    let replies = good_replies();
    for n in 0..=replies.len() {
        assert_eq!(drive(&replies[..n]).1, Ok(expected[n]));
    }
}

#[test]
fn expectations_follow_the_ledgers() {
    let replies = good_replies();
    let expected = |n: usize| drive(&replies[..n]).0.expected;
    let ti = |relay: u128, para: u128| TotalIssuance { relay, para };
    assert_eq!(expected(0), ti(0, 0));
    assert_eq!(expected(1), ti(10_000_000_000, 5_000_000_000));
    assert_eq!(expected(2), ti(10_000_000_000, 5_000_000_000));
    assert_eq!(expected(4), ti(10_000_000_000, 6_500_000_000));
    assert_eq!(expected(9), ti(9_955_000_000, 6_455_000_000));
    assert_eq!(expected(12), ti(9_955_000_000, 6_505_000_000));
    assert_eq!(expected(15), ti(9_955_000_000, 6_505_000_000));
    assert_eq!(expected(16), ti(9_930_000_000, 6_480_000_000));
}

#[test]
fn base_fee_is_split_evenly() {
    assert_eq!(ON_DEMAND_BASE_FEE, 50_000_000);
    assert_eq!(HALF_BASE_FEE, 25_000_000);
}

#[test]
fn every_check_of_the_issuance_counts() {
    for at in [4, 13, 17] {
        let expected = drive(&good_replies()[..at]).0.expected;
        for actual in [
            TotalIssuance { relay: expected.relay + 1, para: expected.para },
            TotalIssuance { relay: expected.relay, para: expected.para - 1 },
        ] {
            assert_eq!(
                with_reply(at, Reply::Issuance(actual)),
                Err(Failure::Issuance(IssuanceMismatch { expected, actual }))
            );
        }
    }
}

#[test]
fn empty_private_pool_fails_the_run() {
    let history = Payload::HistoryInitialized { when: 31, private_pool_size: 0 };
    assert_eq!(with_reply(10, Reply::Event(history)), Err(Failure::EmptyPrivatePool));
}

#[test]
fn spot_price_must_be_the_base_fee() {
    for paid in [49_999_999, 50_000_001] {
        let placed = Receipt::OrderPlaced { spot_price: paid };
        assert_eq!(with_reply(11, Reply::Receipt(placed)), Err(Failure::SpotPrice { paid }));
    }
}

#[test]
fn private_payout_must_be_half_of_the_base_fee() {
    let claims = Payload::ClaimsReady { when: 31, private_payout: 24_999_999 };
    assert_eq!(
        with_reply(12, Reply::Event(claims)),
        Err(Failure::PrivatePayout { payout: 24_999_999 })
    );
}

#[test]
fn claim_must_pay_half_of_the_base_fee() {
    let paid = Receipt::ClaimPaid { amount: 25_000_001 };
    assert_eq!(
        with_reply(14, Reply::Receipt(paid)),
        Err(Failure::ClaimPayout { amount: 25_000_001 })
    );
}

#[test]
fn receipts_must_be_there() {
    for at in [8, 9, 11, 14] {
        assert_eq!(
            with_reply(at, Reply::Receipt(Receipt::Missing)),
            Err(Failure::ReceiptMissing)
        );
        assert_eq!(
            with_reply(at, Reply::Receipt(Receipt::Undecodable)),
            Err(Failure::ReceiptUndecodable)
        );
    }
    assert_eq!(with_reply(2, Reply::Receipt(Receipt::Missing)), Err(Failure::OutOfTurn));
}

#[test]
fn issuance_that_leaves_its_range_fails_the_run() {
    let mint = Reply::Event(Payload::Minted { who: ALICE });
    let full = [issuance(0, u128::MAX), Reply::Watching, Reply::Pushed, mint];
    assert_eq!(drive(&full).1, Err(Failure::IssuanceOutOfRange));
    let price = 6_500_000_001;
    let bought = Receipt::Purchased { region: BOUGHT, price };
    assert_eq!(with_reply(8, Reply::Receipt(bought)), Err(Failure::IssuanceOutOfRange));
}

#[test]
fn failed_run_is_over() {
    let good = good_replies();
    let mut replies = good[..11].to_vec();
    replies.push(Reply::Receipt(Receipt::OrderPlaced { spot_price: 1 }));
    let before = drive(&good[..11]).0;
    let mut failed = drive(&replies).0;
    assert_eq!(failed.stage, Stage::Failed);
    assert_eq!(failed.expected, before.expected);
    assert_eq!(failed.step(&good[11]), Err(Failure::OutOfTurn));
    assert_eq!(failed.step(&good[0]), Err(Failure::OutOfTurn));
    assert_eq!(failed.stage.action(ALICE), Action::Stop);
}

#[test]
fn replies_out_of_turn_fail_the_run() {
    let good = good_replies();
    for at in 0..good.len() {
        let wrong = if good[at] == Reply::Pushed { issuance(0, 0) } else { Reply::Pushed };
        assert_eq!(with_reply(at, wrong), Err(Failure::OutOfTurn));
    }
    let other = Payload::ClaimsReady { when: 31, private_payout: 25_000_000 };
    assert_eq!(with_reply(6, Reply::Event(other)), Err(Failure::OutOfTurn));
}

#[test]
fn only_the_awaited_event_is_in_turn() {
    let other = Payload::Minted { who: AccountId([2; 32]) };
    assert_eq!(with_reply(3, Reply::Event(other)), Err(Failure::OutOfTurn));
    // The region that was bought begins at 30, the one that was pooled at 31.
    for when in [30, 32] {
        let history = Payload::HistoryInitialized { when, private_pool_size: 80 };
        assert_eq!(with_reply(10, Reply::Event(history)), Err(Failure::OutOfTurn));
        let empty = Payload::HistoryInitialized { when, private_pool_size: 0 };
        assert_eq!(with_reply(10, Reply::Event(empty)), Err(Failure::OutOfTurn));
        let claims = Payload::ClaimsReady { when, private_payout: 25_000_000 };
        assert_eq!(with_reply(12, Reply::Event(claims)), Err(Failure::OutOfTurn));
    }
}

#[test]
fn any_sale_will_do() {
    let other = Sale { region_begin: 60, region_end: 61, ..SALE };
    let mut replies = good_replies();
    replies[7] = Reply::Event(Payload::SaleInitialized(other));
    assert_eq!(drive(&replies).1, Ok(Action::Finish));
}

#[test]
fn watchers_start_before_anything_is_done() {
    let good = good_replies();
    assert_eq!(drive(&good[..1]).1, Ok(Action::StartWatchers));
    // The teleport cannot come first, and the watchers are not started twice.
    assert_eq!(with_reply(1, Reply::Pushed), Err(Failure::OutOfTurn));
    assert_eq!(with_reply(0, Reply::Watching), Err(Failure::OutOfTurn));
    for at in 2..=good.len() {
        assert_eq!(with_reply(at, Reply::Watching), Err(Failure::OutOfTurn));
    }
}

#[test]
fn events_of_the_parachain_and_issuance_of_both_chains_are_watched() {
    assert_eq!(
        watchers(),
        vec![
            Watcher::Events { chain: Chain::Para },
            Watcher::Issuance { chain: Chain::Para },
            Watcher::Issuance { chain: Chain::Relay },
        ]
    );
    assert_eq!((Chain::Para.label(), Chain::Relay.label()), ("PARA", "RELAY"));
}

#[test]
fn finished_run_accepts_nothing() {
    assert_eq!(with_reply(18, issuance(0, 0)), Err(Failure::OutOfTurn));
    assert_eq!(with_reply(18, Reply::Pushed), Err(Failure::OutOfTurn));
}

#[test]
fn broker_is_set_up_in_four_calls() {
    assert_eq!(
        broker_setup(),
        vec![
            BrokerCall::Configure {
                config: BrokerConfig {
                    advance_notice: 5,
                    interlude_length: 1,
                    leadin_length: 1,
                    region_length: 1,
                    ideal_bulk_proportion: 100,
                    limit_cores_offered: None,
                    renewal_bump: 10,
                    contribution_timeout: 5,
                },
            },
            BrokerCall::RequestCoreCount { core_count: 3 },
            BrokerCall::SetLease { task: 1005, until: 1000 },
            BrokerCall::StartSales { end_price: 45_000_000, extra_cores: 2 },
        ]
    );
}
