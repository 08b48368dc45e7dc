//! The run itself: what is done on the chains, in which order, and what must come of it.
//!
//! The program around this crate performs each [`Action`] and hands the [`Reply`] to
//! [`Scenario::step`].

use crate::accounts::{alice, alice_key};
use crate::chain::{AccountId, Payload, RegionId};
use crate::events::Awaited;
use crate::issuance::{assert_total_issuance, IssuanceMismatch, TotalIssuance};
use vstd::prelude::*;

verus! {

/// On-demand coretime base fee (set at genesis).
///
/// It must always be higher than the existential deposit of the relay chain. Otherwise, when
/// on-demand coretime is bought at the base fee, the fee goes from the buyer to the pallet pot and
/// is burnt at once if the pot was empty, and nothing is left there to be withdrawn and teleported
/// to the parachain as revenue.
pub const ON_DEMAND_BASE_FEE: u128 = 50_000_000;

/// The half of the base fee that goes to private contributors. The other half goes to the system:
/// of three cores one is leased, one is pooled by the system and one is pooled by Alice.
pub const HALF_BASE_FEE: u128 = ON_DEMAND_BASE_FEE / 2;

/// The number of the coretime parachain.
pub const CORETIME_PARA_ID: u32 = 1005;

/// How much Alice teleports to the parachain.
pub const TELEPORT_AMOUNT: u128 = 1_500_000_000;

/// The most that Alice pays for a region.
pub const PURCHASE_PRICE_LIMIT: u128 = 1_000_000_000;

/// The most that Bob pays for an on-demand order.
pub const ORDER_MAX_AMOUNT: u128 = 100_000_000;

/// The parachain that Bob orders a core for.
pub const ORDER_PARA_ID: u32 = 100;

/// One of the two chains.
#[derive(Clone, Copy, Debug, PartialEq, Eq, Structural)]
pub enum Chain {
    /// The relay chain.
    Relay,
    /// The coretime parachain.
    Para,
}

impl Chain {
    /// What the chain is called in reports.
    pub open spec fn spec_label(self) -> Seq<char> {
        match self {
            Chain::Relay => "RELAY"@,
            Chain::Para => "PARA"@,
        }
    }

    /// What the chain is called in reports.
    pub fn label(&self) -> (label: &'static str)
        ensures
            label@ == self.spec_label(),
    {
        match self {
            Chain::Relay => "RELAY",
            Chain::Para => "PARA",
        }
    }
}

/// A task beside the run that follows the finalized blocks of a chain.
#[derive(Clone, Copy, Debug, PartialEq, Eq, Structural)]
pub enum Watcher {
    /// Records the events of the chain in the log that the run waits on.
    Events { chain: Chain },
    /// Reports every change of the total issuance of the chain.
    Issuance { chain: Chain },
}

/// The watchers of a run, in the order in which they are started.
pub open spec fn watchers_of_run() -> Seq<Watcher> {
    seq![
        Watcher::Events { chain: Chain::Para },
        Watcher::Issuance { chain: Chain::Para },
        Watcher::Issuance { chain: Chain::Relay },
    ]
}

/// The watchers of a run, in the order in which they are started.
pub fn watchers() -> (watchers: Vec<Watcher>)
    ensures
        watchers@ == watchers_of_run(),
{
    let mut watchers: Vec<Watcher> = Vec::new();
    watchers.push(Watcher::Events { chain: Chain::Para });
    watchers.push(Watcher::Issuance { chain: Chain::Para });
    watchers.push(Watcher::Issuance { chain: Chain::Relay });
    watchers
}

/// Who signs a transaction.
#[derive(Clone, Copy, Debug, PartialEq, Eq, Structural)]
pub enum Signer {
    Alice,
    Bob,
}

/// Whether a pooled region can be taken back.
#[derive(Clone, Copy, Debug, PartialEq, Eq, Structural)]
pub enum Finality {
    Provisional,
    Final,
}

/// The configuration of the broker pallet. Proportions are in parts per billion.
#[derive(Clone, Copy, Debug, PartialEq, Eq, Structural)]
pub struct BrokerConfig {
    pub advance_notice: u32,
    pub interlude_length: u32,
    pub leadin_length: u32,
    pub region_length: u32,
    pub ideal_bulk_proportion: u32,
    pub limit_cores_offered: Option<u16>,
    pub renewal_bump: u32,
    pub contribution_timeout: u32,
}

/// A privileged call to the broker pallet.
#[derive(Clone, Copy, Debug, PartialEq, Eq, Structural)]
pub enum BrokerCall {
    Configure { config: BrokerConfig },
    RequestCoreCount { core_count: u16 },
    SetLease { task: u32, until: u32 },
    StartSales { end_price: u128, extra_cores: u16 },
}

/// The calls that get the broker pallet going, in the order in which they are made.
pub open spec fn broker_setup_calls() -> Seq<BrokerCall> {
    seq![
        BrokerCall::Configure {
            config: BrokerConfig {
                advance_notice: 5,
                interlude_length: 1,
                leadin_length: 1,
                region_length: 1,
                ideal_bulk_proportion: 100,
                limit_cores_offered: None,
                renewal_bump: 10,
                contribution_timeout: 5,
            },
        },
        BrokerCall::RequestCoreCount { core_count: 3 },
        BrokerCall::SetLease { task: CORETIME_PARA_ID, until: 1000 },
        BrokerCall::StartSales { end_price: 45_000_000, extra_cores: 2 },
    ]
}

/// The calls that get the broker pallet going, in the order in which they are made.
pub fn broker_setup() -> (calls: Vec<BrokerCall>)
    ensures
        calls@ == broker_setup_calls(),
{
    let mut calls: Vec<BrokerCall> = Vec::new();
    calls.push(
        BrokerCall::Configure {
            config: BrokerConfig {
                advance_notice: 5,
                interlude_length: 1,
                leadin_length: 1,
                region_length: 1,
                ideal_bulk_proportion: 100,
                limit_cores_offered: None,
                renewal_bump: 10,
                contribution_timeout: 5,
            },
        },
    );
    calls.push(BrokerCall::RequestCoreCount { core_count: 3 });
    calls.push(BrokerCall::SetLease { task: CORETIME_PARA_ID, until: 1000 });
    calls.push(BrokerCall::StartSales { end_price: 45_000_000, extra_cores: 2 });
    calls
}

/// What a transaction does.
#[derive(Clone, Copy, Debug, PartialEq, Eq)]
pub enum Call {
    /// Teleports native tokens of the relay chain to an account on a parachain, which pays the
    /// fees out of the asset at `fee_asset_item`.
    TeleportAssets {
        para_id: u32,
        beneficiary: AccountId,
        amount: u128,
        fee_asset_item: u32,
    },
    /// As root, makes the calls of [`broker_setup`] in one batch.
    SetUpBroker,
    /// Buys a region in the current sale.
    Purchase { price_limit: u128 },
    /// Puts a region into the on-demand pool.
    Pool { region: RegionId, payee: AccountId, finality: Finality },
    /// Orders on-demand coretime for a parachain, even if that empties the account.
    PlaceOrder { max_amount: u128, para_id: u32 },
    /// Claims the revenue of a pooled region.
    ClaimRevenue { region: RegionId, max_timeslices: u32 },
}

/// What to do next on the chains.
#[derive(Clone, Copy, Debug, PartialEq, Eq)]
pub enum Action {
    /// Read the total issuance of both chains.
    MeasureIssuance,
    /// Start the watchers of [`watchers`].
    StartWatchers,
    /// Push a transaction.
    Submit { chain: Chain, signer: Signer, call: Call },
    /// Wait for an event of the parachain.
    WaitFor(Awaited),
    /// Nothing: the run has succeeded.
    Finish,
    /// Nothing: the run has failed.
    Stop,
}

/// The first event of the wanted kind that a pushed transaction emitted.
#[derive(Clone, Copy, Debug, PartialEq, Eq)]
pub enum Receipt {
    /// `Broker::Purchased`.
    Purchased { region: RegionId, price: u128 },
    /// `Broker::Pooled`.
    Pooled { region: RegionId, duration: u32 },
    /// `OnDemandAssignmentProvider::OnDemandOrderPlaced`.
    OrderPlaced { spot_price: u128 },
    /// `Broker::RevenueClaimPaid`.
    ClaimPaid { amount: u128 },
    /// There is none.
    Missing,
    /// The events could not be decoded.
    Undecodable,
}

/// The reply to an [`Action`].
#[derive(Clone, Copy, Debug, PartialEq, Eq)]
pub enum Reply {
    /// The total issuance of both chains.
    Issuance(TotalIssuance),
    /// The watchers have been started.
    Watching,
    /// A transaction of which no event is wanted went through.
    Pushed,
    /// A transaction went through, and this came of it.
    Receipt(Receipt),
    /// The awaited event came.
    Event(Payload),
}

/// Why a run fails.
#[derive(Clone, Copy, Debug, PartialEq, Eq, Structural)]
pub enum Failure {
    /// The reply answers another action than the one that was asked for, or is another event than
    /// the awaited one.
    OutOfTurn,
    /// A transaction did not emit the event that it should have.
    ReceiptMissing,
    /// The events of a transaction could not be decoded.
    ReceiptUndecodable,
    /// The expected total issuance leaves the range of its type.
    IssuanceOutOfRange,
    /// The total issuance on the chains is not the expected one.
    Issuance(IssuanceMismatch),
    /// Nothing was contributed to the private pool.
    EmptyPrivatePool,
    /// The on-demand order did not cost the base fee.
    SpotPrice { paid: u128 },
    /// The private payout is not half of the base fee.
    PrivatePayout { payout: u128 },
    /// The claim did not pay half of the base fee.
    ClaimPayout { amount: u128 },
}

/// How far a run has come: what it is doing, and what it must remember for later.
#[derive(Clone, Copy, Debug, PartialEq, Eq)]
pub enum Stage {
    /// Reading the total issuance that the expectations start from.
    Reference,
    /// Starting the watchers, before the run does anything that they are to see.
    StartingWatchers,
    /// Teleporting tokens from the relay chain to the parachain, which is still needed, though
    /// Alice has funds there, to fill the account that the relay chain checks teleports against.
    Teleporting,
    /// Waiting for them to be minted there.
    AwaitingMint,
    /// Comparing the issuance after the teleport.
    CheckingTeleport,
    /// Setting up the broker and starting sales.
    SettingUpBroker,
    /// Waiting for the first sale, which may be a short one and is skipped.
    AwaitingShortSale,
    /// Waiting for a full-length sale.
    AwaitingFullSale,
    /// Buying a region.
    Purchasing,
    /// Pooling it.
    Pooling { region: RegionId },
    /// Waiting for the timeslice at which the region begins.
    AwaitingHistory { region: RegionId, duration: u32 },
    /// Ordering on-demand coretime.
    PlacingOrder { region: RegionId, duration: u32 },
    /// Waiting for the revenue to be ready to claim.
    AwaitingClaims { region: RegionId, duration: u32 },
    /// Comparing the issuance after the revenue came to the parachain.
    CheckingRevenue { region: RegionId, duration: u32 },
    /// Claiming the revenue.
    Claiming { region: RegionId, duration: u32 },
    /// Waiting for the first of two timeslice boundaries between which the system revenue is
    /// burnt.
    AwaitingBoundary,
    /// Waiting for the second one.
    AwaitingBurn,
    /// Comparing the issuance after the burn.
    CheckingBurn,
    /// Done.
    Finished,
    /// Failed, and over.
    Failed,
}

impl Stage {
    /// The number of stages before this one; failure is not a stage on the way and comes last.
    pub open spec fn position(self) -> int {
        match self {
            Stage::Reference => 0,
            Stage::StartingWatchers => 1,
            Stage::Teleporting => 2,
            Stage::AwaitingMint => 3,
            Stage::CheckingTeleport => 4,
            Stage::SettingUpBroker => 5,
            Stage::AwaitingShortSale => 6,
            Stage::AwaitingFullSale => 7,
            Stage::Purchasing => 8,
            Stage::Pooling { .. } => 9,
            Stage::AwaitingHistory { .. } => 10,
            Stage::PlacingOrder { .. } => 11,
            Stage::AwaitingClaims { .. } => 12,
            Stage::CheckingRevenue { .. } => 13,
            Stage::Claiming { .. } => 14,
            Stage::AwaitingBoundary => 15,
            Stage::AwaitingBurn => 16,
            Stage::CheckingBurn => 17,
            Stage::Finished => 18,
            Stage::Failed => 19,
        }
    }

    /// What is done at this stage, where `alice` is the account of Alice.
    pub open spec fn spec_action(self, alice: AccountId) -> Action {
        match self {
            Stage::Reference | Stage::CheckingTeleport | Stage::CheckingRevenue { .. }
            | Stage::CheckingBurn => Action::MeasureIssuance,
            Stage::StartingWatchers => Action::StartWatchers,
            Stage::Teleporting => Action::Submit {
                chain: Chain::Relay,
                signer: Signer::Alice,
                call: Call::TeleportAssets {
                    para_id: CORETIME_PARA_ID,
                    beneficiary: alice,
                    amount: TELEPORT_AMOUNT,
                    fee_asset_item: 0,
                },
            },
            Stage::AwaitingMint => Action::WaitFor(Awaited::Minted { to: alice }),
            Stage::SettingUpBroker => Action::Submit {
                chain: Chain::Para,
                signer: Signer::Alice,
                call: Call::SetUpBroker,
            },
            Stage::AwaitingShortSale | Stage::AwaitingFullSale | Stage::AwaitingBoundary
            | Stage::AwaitingBurn => Action::WaitFor(Awaited::SaleInitialized),
            Stage::Purchasing => Action::Submit {
                chain: Chain::Para,
                signer: Signer::Alice,
                call: Call::Purchase { price_limit: PURCHASE_PRICE_LIMIT },
            },
            Stage::Pooling { region } => Action::Submit {
                chain: Chain::Para,
                signer: Signer::Alice,
                call: Call::Pool { region, payee: alice, finality: Finality::Final },
            },
            Stage::AwaitingHistory { region, .. } => Action::WaitFor(
                Awaited::HistoryInitialized { when: region.begin },
            ),
            Stage::PlacingOrder { .. } => Action::Submit {
                chain: Chain::Relay,
                signer: Signer::Bob,
                call: Call::PlaceOrder { max_amount: ORDER_MAX_AMOUNT, para_id: ORDER_PARA_ID },
            },
            Stage::AwaitingClaims { region, .. } => Action::WaitFor(
                Awaited::ClaimsReady { when: region.begin },
            ),
            Stage::Claiming { region, duration } => Action::Submit {
                chain: Chain::Para,
                signer: Signer::Alice,
                call: Call::ClaimRevenue { region, max_timeslices: duration },
            },
            Stage::Finished => Action::Finish,
            Stage::Failed => Action::Stop,
        }
    }

    /// What is done at this stage, where `alice` is the account of Alice.
    pub fn action(&self, alice: AccountId) -> (action: Action)
        ensures
            action == self.spec_action(alice),
    {
        match *self {
            Stage::Reference | Stage::CheckingTeleport | Stage::CheckingRevenue { .. }
            | Stage::CheckingBurn => Action::MeasureIssuance,
            Stage::StartingWatchers => Action::StartWatchers,
            Stage::Teleporting => Action::Submit {
                chain: Chain::Relay,
                signer: Signer::Alice,
                call: Call::TeleportAssets {
                    para_id: CORETIME_PARA_ID,
                    beneficiary: alice,
                    amount: TELEPORT_AMOUNT,
                    fee_asset_item: 0,
                },
            },
            Stage::AwaitingMint => Action::WaitFor(Awaited::Minted { to: alice }),
            Stage::SettingUpBroker => Action::Submit {
                chain: Chain::Para,
                signer: Signer::Alice,
                call: Call::SetUpBroker,
            },
            Stage::AwaitingShortSale | Stage::AwaitingFullSale | Stage::AwaitingBoundary
            | Stage::AwaitingBurn => Action::WaitFor(Awaited::SaleInitialized),
            Stage::Purchasing => Action::Submit {
                chain: Chain::Para,
                signer: Signer::Alice,
                call: Call::Purchase { price_limit: PURCHASE_PRICE_LIMIT },
            },
            Stage::Pooling { region } => Action::Submit {
                chain: Chain::Para,
                signer: Signer::Alice,
                call: Call::Pool { region, payee: alice, finality: Finality::Final },
            },
            Stage::AwaitingHistory { region, .. } => Action::WaitFor(
                Awaited::HistoryInitialized { when: region.begin },
            ),
            Stage::PlacingOrder { .. } => Action::Submit {
                chain: Chain::Relay,
                signer: Signer::Bob,
                call: Call::PlaceOrder { max_amount: ORDER_MAX_AMOUNT, para_id: ORDER_PARA_ID },
            },
            Stage::AwaitingClaims { region, .. } => Action::WaitFor(
                Awaited::ClaimsReady { when: region.begin },
            ),
            Stage::Claiming { region, duration } => Action::Submit {
                chain: Chain::Para,
                signer: Signer::Alice,
                call: Call::ClaimRevenue { region, max_timeslices: duration },
            },
            Stage::Finished => Action::Finish,
            Stage::Failed => Action::Stop,
        }
    }

    /// The stage that a reply leads to, if it answers the action of this stage.
    pub open spec fn next(self, reply: Reply) -> Option<Stage> {
        match (self, reply) {
            (Stage::Reference, Reply::Issuance(_)) => Some(Stage::StartingWatchers),
            (Stage::StartingWatchers, Reply::Watching) => Some(Stage::Teleporting),
            (Stage::Teleporting, Reply::Pushed) => Some(Stage::AwaitingMint),
            (Stage::AwaitingMint, Reply::Event(Payload::Minted { .. })) => Some(
                Stage::CheckingTeleport,
            ),
            (Stage::CheckingTeleport, Reply::Issuance(_)) => Some(Stage::SettingUpBroker),
            (Stage::SettingUpBroker, Reply::Pushed) => Some(Stage::AwaitingShortSale),
            (Stage::AwaitingShortSale, Reply::Event(Payload::SaleInitialized(_))) => Some(
                Stage::AwaitingFullSale,
            ),
            (Stage::AwaitingFullSale, Reply::Event(Payload::SaleInitialized(_))) => Some(
                Stage::Purchasing,
            ),
            (Stage::Purchasing, Reply::Receipt(Receipt::Purchased { region, .. })) => Some(
                Stage::Pooling { region },
            ),
            (Stage::Pooling { .. }, Reply::Receipt(Receipt::Pooled { region, duration })) => Some(
                Stage::AwaitingHistory { region, duration },
            ),
            (
                Stage::AwaitingHistory { region, duration },
                Reply::Event(Payload::HistoryInitialized { .. }),
            ) => Some(Stage::PlacingOrder { region, duration }),
            (
                Stage::PlacingOrder { region, duration },
                Reply::Receipt(Receipt::OrderPlaced { .. }),
            ) => Some(Stage::AwaitingClaims { region, duration }),
            (
                Stage::AwaitingClaims { region, duration },
                Reply::Event(Payload::ClaimsReady { .. }),
            ) => Some(Stage::CheckingRevenue { region, duration }),
            (Stage::CheckingRevenue { region, duration }, Reply::Issuance(_)) => Some(
                Stage::Claiming { region, duration },
            ),
            (Stage::Claiming { .. }, Reply::Receipt(Receipt::ClaimPaid { .. })) => Some(
                Stage::AwaitingBoundary,
            ),
            (Stage::AwaitingBoundary, Reply::Event(Payload::SaleInitialized(_))) => Some(
                Stage::AwaitingBurn,
            ),
            (Stage::AwaitingBurn, Reply::Event(Payload::SaleInitialized(_))) => Some(
                Stage::CheckingBurn,
            ),
            (Stage::CheckingBurn, Reply::Issuance(_)) => Some(Stage::Finished),
            _ => None,
        }
    }

    /// Whether the transaction of this stage must emit some event.
    pub open spec fn wants_receipt(self) -> bool {
        self is Purchasing || self is Pooling || self is PlacingOrder || self is Claiming
    }

    /// Whether this stage compares the issuance on the chains with the expected one.
    pub open spec fn checks_issuance(self) -> bool {
        self is CheckingTeleport || self is CheckingRevenue || self is CheckingBurn
    }
}

/// What a reply at a stage does to the expected issuance on the relay chain.
pub open spec fn relay_change(stage: Stage, reply: Reply) -> int {
    match (stage, reply) {
        // The revenue of the sale is teleported to the relay chain and burnt on both.
        (Stage::Purchasing, Reply::Receipt(Receipt::Purchased { price, .. })) => -price,
        // The system revenue is teleported back and burnt on both.
        (Stage::AwaitingBoundary, _) => -HALF_BASE_FEE,
        _ => 0,
    }
}

/// What a reply at a stage does to the expected issuance on the parachain.
pub open spec fn para_change(stage: Stage, reply: Reply) -> int {
    match (stage, reply) {
        (Stage::AwaitingMint, _) => TELEPORT_AMOUNT as int,
        (Stage::Purchasing, Reply::Receipt(Receipt::Purchased { price, .. })) => -price,
        // Revenue is checked out of the relay chain and minted on the parachain.
        (Stage::PlacingOrder { .. }, _) => ON_DEMAND_BASE_FEE as int,
        (Stage::AwaitingBoundary, _) => -HALF_BASE_FEE,
        _ => 0,
    }
}

/// What is wrong with a reply at a stage, where `expected` is the expected issuance.
pub open spec fn objection(stage: Stage, expected: TotalIssuance, reply: Reply) -> Option<Failure> {
    match reply {
        Reply::Receipt(Receipt::Missing) if stage.wants_receipt() => Some(Failure::ReceiptMissing),
        Reply::Receipt(Receipt::Undecodable) if stage.wants_receipt() => Some(
            Failure::ReceiptUndecodable,
        ),
        _ if stage.next(reply) is None => Some(Failure::OutOfTurn),
        Reply::Issuance(actual) if stage.checks_issuance() && actual != expected => Some(
            Failure::Issuance(IssuanceMismatch { expected, actual }),
        ),
        Reply::Event(Payload::HistoryInitialized { private_pool_size, .. }) if private_pool_size
            == 0 => Some(Failure::EmptyPrivatePool),
        Reply::Receipt(Receipt::OrderPlaced { spot_price }) if spot_price
            != ON_DEMAND_BASE_FEE => Some(Failure::SpotPrice { paid: spot_price }),
        Reply::Event(Payload::ClaimsReady { private_payout, .. }) if private_payout
            != HALF_BASE_FEE => Some(Failure::PrivatePayout { payout: private_payout }),
        Reply::Receipt(Receipt::ClaimPaid { amount }) if amount != HALF_BASE_FEE => Some(
            Failure::ClaimPayout { amount },
        ),
        _ if !(stage is Reference) && !expected.can_change_by(
            relay_change(stage, reply),
            para_change(stage, reply),
        ) => Some(Failure::IssuanceOutOfRange),
        _ => None,
    }
}

/// The expected issuance after a reply to which there is no objection.
pub open spec fn expected_after(stage: Stage, expected: TotalIssuance, reply: Reply) -> TotalIssuance {
    match (stage, reply) {
        (Stage::Reference, Reply::Issuance(actual)) => actual,
        _ => expected.changed_by(relay_change(stage, reply), para_change(stage, reply)),
    }
}

/// A run in progress.
#[derive(Clone, Copy, Debug)]
pub struct Scenario {
    /// How far it has come.
    pub stage: Stage,
    /// What the total issuance should be, once everything accounted for has happened. Zero before
    /// the first reading.
    pub expected: TotalIssuance,
    /// The account of Alice.
    pub alice: AccountId,
}

impl Scenario {
    /// A run that has not done anything yet.
    pub open spec fn initial(alice: AccountId) -> Scenario {
        Scenario {
            stage: Stage::Reference,
            expected: TotalIssuance { relay: 0, para: 0 },
            alice,
        }
    }

    /// Whether the run waits for an event, and a `payload` is that of the event.
    pub open spec fn awaits(self, payload: Payload) -> bool {
        self.stage.spec_action(self.alice) matches Action::WaitFor(awaited) && awaited.verdict(
            payload,
        ) == Some(true)
    }

    /// The run after a reply, or why it fails upon it. An event that is not the awaited one is out
    /// of turn.
    pub open spec fn after(self, reply: Reply) -> Result<Scenario, Failure> {
        if reply is Event && !self.awaits(reply->Event_0) {
            Err(Failure::OutOfTurn)
        } else {
            match objection(self.stage, self.expected, reply) {
                Some(failure) => Err(failure),
                None => Ok(
                    Scenario {
                        stage: self.stage.next(reply)->0,
                        expected: expected_after(self.stage, self.expected, reply),
                        alice: self.alice,
                    },
                ),
            }
        }
    }

    /// Starts a run for an account of Alice.
    pub fn start(alice: AccountId) -> (started: (Scenario, Action))
        ensures
            started.0 == Scenario::initial(alice),
            started.1 == Action::MeasureIssuance,
    {
        (
            Scenario {
                stage: Stage::Reference,
                expected: TotalIssuance { relay: 0, para: 0 },
                alice,
            },
            Action::MeasureIssuance,
        )
    }

    /// Starts a run for the development account of Alice.
    pub fn start_with_dev_account() -> (started: (Scenario, Action))
        ensures
            started.0 == Scenario::initial(started.0.alice),
            started.0.alice@ == alice_key(),
            started.1 == Action::MeasureIssuance,
    {
        Scenario::start(alice())
    }

    /// Takes the reply to the last action and says what to do next. A run that fails is over.
    pub fn step(&mut self, reply: &Reply) -> (outcome: Result<Action, Failure>)
        ensures
            match old(self).after(*reply) {
                Ok(next) => {
                    &&& *final(self) == next
                    &&& outcome == Ok::<Action, Failure>(next.stage.spec_action(next.alice))
                },
                Err(failure) => {
                    &&& *final(self) == (Scenario { stage: Stage::Failed, ..*old(self) })
                    &&& outcome == Err::<Action, Failure>(failure)
                },
            },
    {
        match self.advance(reply) {
            Err(failure) => {
                self.stage = Stage::Failed;
                Err(failure)
            },
            Ok((stage, expected)) => {
                self.stage = stage;
                self.expected = expected;
                Ok(stage.action(self.alice))
            },
        }
    }

    /// The stage and the expected issuance after a reply.
    fn advance(&self, reply: &Reply) -> (outcome: Result<(Stage, TotalIssuance), Failure>)
        ensures
            outcome == (match self.after(*reply) {
                Ok(next) => Ok::<(Stage, TotalIssuance), Failure>((next.stage, next.expected)),
                Err(failure) => Err::<(Stage, TotalIssuance), Failure>(failure),
            }),
    {
        if let Reply::Event(payload) = reply {
            if !self.is_awaited(payload) {
                return Err(Failure::OutOfTurn);
            }
        }
        match (self.stage, *reply) {
            (Stage::Reference, Reply::Issuance(actual)) => Ok((Stage::StartingWatchers, actual)),
            (Stage::StartingWatchers, Reply::Watching) => self.proceed(Stage::Teleporting),
            (Stage::Teleporting, Reply::Pushed) => self.proceed(Stage::AwaitingMint),
            (Stage::AwaitingMint, Reply::Event(Payload::Minted { .. })) => self.account(
                Stage::CheckingTeleport,
                self.expected.minted_on_para(TELEPORT_AMOUNT),
            ),
            (Stage::CheckingTeleport, Reply::Issuance(actual)) => self.compare(
                Stage::SettingUpBroker,
                actual,
            ),
            (Stage::SettingUpBroker, Reply::Pushed) => self.proceed(Stage::AwaitingShortSale),
            (Stage::AwaitingShortSale, Reply::Event(Payload::SaleInitialized(_))) => self.proceed(
                Stage::AwaitingFullSale,
            ),
            (Stage::AwaitingFullSale, Reply::Event(Payload::SaleInitialized(_))) => self.proceed(
                Stage::Purchasing,
            ),
            (Stage::Purchasing, Reply::Receipt(Receipt::Purchased { region, price })) => self.account(
                Stage::Pooling { region },
                self.expected.burnt_on_both(price),
            ),
            (
                Stage::Pooling { .. },
                Reply::Receipt(Receipt::Pooled { region, duration }),
            ) => self.proceed(Stage::AwaitingHistory { region, duration }),
            (
                Stage::AwaitingHistory { region, duration },
                Reply::Event(Payload::HistoryInitialized { private_pool_size, .. }),
            ) => if private_pool_size == 0 {
                Err(Failure::EmptyPrivatePool)
            } else {
                self.proceed(Stage::PlacingOrder { region, duration })
            },
            (
                Stage::PlacingOrder { region, duration },
                Reply::Receipt(Receipt::OrderPlaced { spot_price }),
            ) => if spot_price != ON_DEMAND_BASE_FEE {
                Err(Failure::SpotPrice { paid: spot_price })
            } else {
                self.account(
                    Stage::AwaitingClaims { region, duration },
                    self.expected.minted_on_para(ON_DEMAND_BASE_FEE),
                )
            },
            (
                Stage::AwaitingClaims { region, duration },
                Reply::Event(Payload::ClaimsReady { private_payout, .. }),
            ) => if private_payout != HALF_BASE_FEE {
                Err(Failure::PrivatePayout { payout: private_payout })
            } else {
                self.proceed(Stage::CheckingRevenue { region, duration })
            },
            (Stage::CheckingRevenue { region, duration }, Reply::Issuance(actual)) => self.compare(
                Stage::Claiming { region, duration },
                actual,
            ),
            (Stage::Claiming { .. }, Reply::Receipt(Receipt::ClaimPaid { amount })) => if amount
                != HALF_BASE_FEE {
                Err(Failure::ClaimPayout { amount })
            } else {
                self.proceed(Stage::AwaitingBoundary)
            },
            (Stage::AwaitingBoundary, Reply::Event(Payload::SaleInitialized(_))) => self.account(
                Stage::AwaitingBurn,
                self.expected.burnt_on_both(HALF_BASE_FEE),
            ),
            (Stage::AwaitingBurn, Reply::Event(Payload::SaleInitialized(_))) => self.proceed(
                Stage::CheckingBurn,
            ),
            (Stage::CheckingBurn, Reply::Issuance(actual)) => self.compare(Stage::Finished, actual),
            (
                Stage::Purchasing | Stage::Pooling { .. } | Stage::PlacingOrder { .. }
                | Stage::Claiming { .. },
                Reply::Receipt(Receipt::Missing),
            ) => Err(Failure::ReceiptMissing),
            (
                Stage::Purchasing | Stage::Pooling { .. } | Stage::PlacingOrder { .. }
                | Stage::Claiming { .. },
                Reply::Receipt(Receipt::Undecodable),
            ) => Err(Failure::ReceiptUndecodable),
            _ => Err(Failure::OutOfTurn),
        }
    }

    /// Whether the run waits for an event, and a `payload` is that of the event.
    fn is_awaited(&self, payload: &Payload) -> (awaited: bool)
        ensures
            awaited == self.awaits(*payload),
    {
        match self.stage.action(self.alice) {
            Action::WaitFor(awaited) => match awaited.accepts(payload) {
                Some(accepted) => accepted,
                None => false,
            },
            _ => false,
        }
    }

    /// Goes on to `stage` with nothing to account for.
    fn proceed(&self, stage: Stage) -> (outcome: Result<(Stage, TotalIssuance), Failure>)
        ensures
            outcome == Ok::<(Stage, TotalIssuance), Failure>((stage, self.expected)),
    {
        Ok((stage, self.expected))
    }

    /// Goes on to `stage` with a new expected issuance, if there is one.
    fn account(&self, stage: Stage, expected: Option<TotalIssuance>) -> (outcome: Result<
        (Stage, TotalIssuance),
        Failure,
    >)
        ensures
            outcome == (match expected {
                Some(expected) => Ok::<(Stage, TotalIssuance), Failure>((stage, expected)),
                None => Err::<(Stage, TotalIssuance), Failure>(Failure::IssuanceOutOfRange),
            }),
    {
        match expected {
            Some(expected) => Ok((stage, expected)),
            None => Err(Failure::IssuanceOutOfRange),
        }
    }

    /// Goes on to `stage` if the issuance on the chains is the expected one.
    fn compare(&self, stage: Stage, actual: TotalIssuance) -> (outcome: Result<
        (Stage, TotalIssuance),
        Failure,
    >)
        ensures
            outcome == (if actual == self.expected {
                Ok::<(Stage, TotalIssuance), Failure>((stage, self.expected))
            } else {
                Err::<(Stage, TotalIssuance), Failure>(
                    Failure::Issuance(IssuanceMismatch { expected: self.expected, actual }),
                )
            }),
    {
        match assert_total_issuance(actual, self.expected) {
            Ok(_) => Ok((stage, self.expected)),
            Err(mismatch) => Err(Failure::Issuance(mismatch)),
        }
    }
}

/// The run after a sequence of replies, or why it fails upon one of them.
pub open spec fn run(start: Scenario, replies: Seq<Reply>) -> Result<Scenario, Failure>
    decreases replies.len(),
{
    if replies.len() == 0 {
        Ok(start)
    } else {
        match run(start, replies.drop_last()) {
            Ok(scenario) => scenario.after(replies.last()),
            Err(failure) => Err(failure),
        }
    }
}

/// The number of replies in a run that succeeds.
pub const RUN_LENGTH: usize = 18;

/// The issuance that a run found at its start.
pub open spec fn reference(replies: Seq<Reply>) -> TotalIssuance {
    replies[0]->Issuance_0
}

/// The price that the run paid for its region.
pub open spec fn price(replies: Seq<Reply>) -> u128 {
    replies[8]->Receipt_0->Purchased_price
}

/// The issuance that the relay chain should have once `n` replies are in: the price of the region
/// is burnt there, and at last the half of the base fee that is system revenue.
pub open spec fn relay_ledger(replies: Seq<Reply>, n: int) -> int {
    reference(replies).relay - (if n > 8 {
        price(replies) as int
    } else {
        0
    }) - (if n > 15 {
        HALF_BASE_FEE as int
    } else {
        0
    })
}

/// The issuance that the parachain should have once `n` replies are in: it gains the teleported
/// tokens, loses the price of the region, gains the base fee as revenue, and at last loses the
/// half of it that is system revenue.
pub open spec fn para_ledger(replies: Seq<Reply>, n: int) -> int {
    reference(replies).para + (if n > 3 {
        TELEPORT_AMOUNT as int
    } else {
        0
    }) - (if n > 8 {
        price(replies) as int
    } else {
        0
    }) + (if n > 11 {
        ON_DEMAND_BASE_FEE as int
    } else {
        0
    }) - (if n > 15 {
        HALF_BASE_FEE as int
    } else {
        0
    })
}

/// Whether both ledgers are in the range of their type once `n` replies are in.
pub open spec fn ledgers_in_range(replies: Seq<Reply>, n: int) -> bool {
    &&& 0 <= relay_ledger(replies, n) <= u128::MAX
    &&& 0 <= para_ledger(replies, n) <= u128::MAX
}

/// Whether a reading of the issuance agrees with both ledgers once `n` replies are in.
pub open spec fn agrees_with_ledgers(reply: Reply, replies: Seq<Reply>, n: int) -> bool {
    reply matches Reply::Issuance(actual) && actual.relay == relay_ledger(replies, n) && actual.para
        == para_ledger(replies, n)
}

/// The timeslice at which the region that was pooled begins.
pub open spec fn pooled_begin(replies: Seq<Reply>) -> u32 {
    replies[9]->Receipt_0->Pooled_region.begin
}

/// Whether the reply at position `i` is what a run on behalf of `alice` that succeeds must get
/// there.
pub open spec fn is_good(alice: AccountId, replies: Seq<Reply>, i: int) -> bool {
    let reply = replies[i];
    if i == 0 {
        reply is Issuance
    } else if i == 1 {
        reply is Watching
    } else if i == 2 || i == 5 {
        reply is Pushed
    } else if i == 3 {
        reply matches Reply::Event(Payload::Minted { who }) && who@ == alice@ && ledgers_in_range(
            replies,
            4,
        )
    } else if i == 4 || i == 13 || i == 17 {
        agrees_with_ledgers(reply, replies, i)
    } else if i == 6 || i == 7 || i == 16 {
        reply matches Reply::Event(payload) && payload is SaleInitialized
    } else if i == 8 {
        reply matches Reply::Receipt(receipt) && receipt is Purchased && ledgers_in_range(
            replies,
            9,
        )
    } else if i == 9 {
        reply matches Reply::Receipt(receipt) && receipt is Pooled
    } else if i == 10 {
        reply matches Reply::Event(Payload::HistoryInitialized { when, private_pool_size }) && when
            == pooled_begin(replies) && private_pool_size > 0
    } else if i == 11 {
        reply matches Reply::Receipt(Receipt::OrderPlaced { spot_price }) && spot_price
            == ON_DEMAND_BASE_FEE && ledgers_in_range(replies, 12)
    } else if i == 12 {
        reply matches Reply::Event(Payload::ClaimsReady { when, private_payout }) && when
            == pooled_begin(replies) && private_payout == HALF_BASE_FEE
    } else if i == 14 {
        reply matches Reply::Receipt(Receipt::ClaimPaid { amount }) && amount == HALF_BASE_FEE
    } else if i == 15 {
        reply matches Reply::Event(payload) && payload is SaleInitialized && ledgers_in_range(
            replies,
            16,
        )
    } else {
        false
    }
}

/// The stage of a run once `n` replies are in: the region that was pooled is the one waited for
/// and claimed.
pub open spec fn stage_at(replies: Seq<Reply>, n: int) -> Stage {
    let bought = replies[8]->Receipt_0->Purchased_region;
    let region = replies[9]->Receipt_0->Pooled_region;
    let duration = replies[9]->Receipt_0->duration;
    if n == 0 {
        Stage::Reference
    } else if n == 1 {
        Stage::StartingWatchers
    } else if n == 2 {
        Stage::Teleporting
    } else if n == 3 {
        Stage::AwaitingMint
    } else if n == 4 {
        Stage::CheckingTeleport
    } else if n == 5 {
        Stage::SettingUpBroker
    } else if n == 6 {
        Stage::AwaitingShortSale
    } else if n == 7 {
        Stage::AwaitingFullSale
    } else if n == 8 {
        Stage::Purchasing
    } else if n == 9 {
        Stage::Pooling { region: bought }
    } else if n == 10 {
        Stage::AwaitingHistory { region, duration }
    } else if n == 11 {
        Stage::PlacingOrder { region, duration }
    } else if n == 12 {
        Stage::AwaitingClaims { region, duration }
    } else if n == 13 {
        Stage::CheckingRevenue { region, duration }
    } else if n == 14 {
        Stage::Claiming { region, duration }
    } else if n == 15 {
        Stage::AwaitingBoundary
    } else if n == 16 {
        Stage::AwaitingBurn
    } else if n == 17 {
        Stage::CheckingBurn
    } else {
        Stage::Finished
    }
}

/// A run goes on exactly as long as its replies are good, and then stands where the number of
/// replies says, with the expectations that the ledgers show.
proof fn lemma_run(alice: AccountId, replies: Seq<Reply>, n: int)
    requires
        0 <= n <= replies.len(),
    ensures
        run(Scenario::initial(alice), replies.take(n)) is Ok <==> forall|i: int|
            0 <= i < n ==> #[trigger] is_good(alice, replies, i),
        run(Scenario::initial(alice), replies.take(n)) matches Ok(scenario) ==> {
            &&& n <= RUN_LENGTH
            &&& scenario.stage == stage_at(replies, n)
            &&& scenario.alice == alice
            &&& n > 0 ==> scenario.expected.relay == relay_ledger(replies, n)
            &&& n > 0 ==> scenario.expected.para == para_ledger(replies, n)
        },
    decreases n,
{
    let start = Scenario::initial(alice);
    if n > 0 {
        lemma_run(alice, replies, n - 1);
        let prefix = replies.take(n);
        assert(prefix.drop_last() =~= replies.take(n - 1));
        assert(prefix.last() == replies[n - 1]);
        let reply = replies[n - 1];
        if let Ok(before) = run(start, replies.take(n - 1)) {
            assert(before.after(reply) is Ok <==> is_good(alice, replies, n - 1));
            if is_good(alice, replies, n - 1) {
                assert forall|i: int| 0 <= i < n implies #[trigger] is_good(alice, replies, i) by {
                    if i < n - 1 {
                        assert(is_good(alice, replies, i));
                    }
                }
            }
        } else {
            let bad = choose|i: int| 0 <= i < n - 1 && !#[trigger] is_good(alice, replies, i);
            assert(!is_good(alice, replies, bad));
        }
    }
}

/// Every reply that a run accepts takes it one stage further: none is skipped or repeated.
pub proof fn law_stages_follow_in_order(scenario: Scenario, reply: Reply)
    requires
        scenario.after(reply) is Ok,
    ensures
        scenario.after(reply)->Ok_0.stage.position() == scenario.stage.position() + 1,
        scenario.after(reply)->Ok_0.alice == scenario.alice,
{
}

/// A run that has finished or failed accepts nothing more.
pub proof fn law_over_is_final(scenario: Scenario, reply: Reply)
    requires
        scenario.stage is Finished || scenario.stage is Failed,
    ensures
        scenario.after(reply) == Err::<Scenario, Failure>(Failure::OutOfTurn),
{
}

/// While a run is under way, the issuance that it expects is what the ledgers show: the issuance
/// at its start with everything accounted for that has happened since.
pub proof fn law_expectations_follow_ledgers(alice: AccountId, replies: Seq<Reply>)
    requires
        replies.len() > 0,
        run(Scenario::initial(alice), replies) is Ok,
    ensures
        ({
            let scenario = run(Scenario::initial(alice), replies)->Ok_0;
            let n = replies.len() as int;
            &&& scenario.stage == stage_at(replies, n)
            &&& scenario.stage.position() == n
            &&& scenario.expected.relay == relay_ledger(replies, n)
            &&& scenario.expected.para == para_ledger(replies, n)
        }),
{
    assert(replies.take(replies.len() as int) =~= replies);
    lemma_run(alice, replies, replies.len() as int);
}

/// A run succeeds exactly if it gets the right number of replies and each of them is good. In
/// particular the mint is to Alice, the history and the claims are those of the timeslice at which
/// the pooled region begins, and the issuance on both chains agrees with the ledgers after the
/// teleport, after the revenue came to the parachain, and after the burn.
pub proof fn law_run_succeeds_iff_replies_are_good(alice: AccountId, replies: Seq<Reply>)
    ensures
        (run(Scenario::initial(alice), replies) matches Ok(scenario) && scenario.stage is Finished)
            <==> replies.len() == RUN_LENGTH && forall|i: int|
            0 <= i < RUN_LENGTH ==> #[trigger] is_good(alice, replies, i),
{
    assert(replies.take(replies.len() as int) =~= replies);
    lemma_run(alice, replies, replies.len() as int);
}

/// The watchers are started once: after the first reading, and before the first transaction and the
/// first wait.
pub proof fn law_watchers_start_before_anything_is_done(alice: AccountId, replies: Seq<Reply>)
    requires
        run(Scenario::initial(alice), replies) is Ok,
    ensures
        ({
            let action = run(Scenario::initial(alice), replies)->Ok_0.stage.spec_action(alice);
            &&& action is StartWatchers <==> replies.len() == 1
            &&& action is Submit || action is WaitFor ==> replies.len() > 1
            &&& replies.len() > 0 ==> replies[0] is Issuance
            &&& forall|i: int|
                0 <= i < replies.len() ==> (#[trigger] replies[i] is Watching <==> i == 1)
        }),
{
    assert(replies.take(replies.len() as int) =~= replies);
    lemma_run(alice, replies, replies.len() as int);
    assert forall|i: int| 0 <= i < replies.len() implies (#[trigger] replies[i] is Watching <==> i
        == 1) by {
        assert(is_good(alice, replies, i));
    }
    if replies.len() > 0 {
        assert(is_good(alice, replies, 0));
    }
}

/// The teleport leaves the issuance of the relay chain alone and adds the teleported amount to
/// that of the parachain.
pub proof fn law_teleport_mints_on_para_alone(alice: AccountId, replies: Seq<Reply>)
    requires
        replies.len() > 4,
        run(Scenario::initial(alice), replies) is Ok,
    ensures
        replies[4] == Reply::Issuance(reference(replies).changed_by(0, TELEPORT_AMOUNT as int)),
{
    assert(replies.take(replies.len() as int) =~= replies);
    lemma_run(alice, replies, replies.len() as int);
    assert(is_good(alice, replies, 4));
    assert(is_good(alice, replies, 3));
}

/// When a run has succeeded, the relay chain has lost the price of the region and half of the base
/// fee. The parachain has gained the teleported tokens and half of the base fee, which is Alice's
/// revenue, and lost the price of the region. Over both chains the base fee has cancelled out.
pub proof fn law_successful_run_balances(alice: AccountId, replies: Seq<Reply>)
    requires
        run(Scenario::initial(alice), replies) is Ok,
        run(Scenario::initial(alice), replies)->Ok_0.stage is Finished,
    ensures
        ({
            let first = reference(replies);
            let last = replies.last()->Issuance_0;
            &&& replies.last() is Issuance
            &&& last.relay == first.relay - price(replies) - HALF_BASE_FEE
            &&& last.para == first.para + TELEPORT_AMOUNT - price(replies) + HALF_BASE_FEE
            &&& last.relay + last.para == first.relay + first.para + TELEPORT_AMOUNT - 2 * price(
                replies,
            )
        }),
{
    law_run_succeeds_iff_replies_are_good(alice, replies);
    assert(is_good(alice, replies, 17));
}

/// In a run that succeeds, what the order cost is split evenly between the private payout, all of
/// which the claim pays, and the system.
pub proof fn law_revenue_is_split_evenly(alice: AccountId, replies: Seq<Reply>)
    requires
        run(Scenario::initial(alice), replies) is Ok,
        run(Scenario::initial(alice), replies)->Ok_0.stage is Finished,
    ensures
        ({
            let spot_price = replies[11]->Receipt_0->spot_price;
            let private_payout = replies[12]->Event_0->private_payout;
            let amount = replies[14]->Receipt_0->amount;
            &&& spot_price == ON_DEMAND_BASE_FEE
            &&& private_payout + private_payout == spot_price
            &&& amount == private_payout
        }),
{
    law_run_succeeds_iff_replies_are_good(alice, replies);
    assert(is_good(alice, replies, 11));
    assert(is_good(alice, replies, 12));
    assert(is_good(alice, replies, 14));
}

/// An event that ends a wait with success is never out of turn for the run that asked for the
/// wait.
pub proof fn law_awaited_event_is_in_turn(scenario: Scenario, awaited: Awaited, payload: Payload)
    requires
        scenario.stage.spec_action(scenario.alice) == Action::WaitFor(awaited),
        awaited.verdict(payload) == Some(true),
    ensures
        scenario.awaits(payload),
        scenario.stage.next(Reply::Event(payload)) is Some,
        scenario.after(Reply::Event(payload)) != Err::<Scenario, Failure>(Failure::OutOfTurn),
{
}

/// An event is out of turn for a run unless it ends the wait that the run asked for with success.
pub proof fn law_only_awaited_event_is_in_turn(scenario: Scenario, payload: Payload)
    requires
        scenario.after(Reply::Event(payload)) != Err::<Scenario, Failure>(Failure::OutOfTurn),
    ensures
        exists|awaited: Awaited|
            {
                &&& scenario.stage.spec_action(scenario.alice) == Action::WaitFor(awaited)
                &&& #[trigger] awaited.verdict(payload) == Some(true)
            },
{
    let awaited = scenario.stage.spec_action(scenario.alice)->WaitFor_0;
    assert(awaited.verdict(payload) == Some(true));
}

/// A run that has gone past its waits has seen the mint to Alice, and the history and the claims of
/// the timeslice at which the pooled region begins.
pub proof fn law_waits_are_for_alice_and_pooled_region(alice: AccountId, replies: Seq<Reply>)
    requires
        run(Scenario::initial(alice), replies) is Ok,
    ensures
        replies.len() > 3 ==> (replies[3] matches Reply::Event(Payload::Minted { who }) && who@
            == alice@),
        replies.len() > 10 ==> (replies[10] matches Reply::Event(
            Payload::HistoryInitialized { when, .. },
        ) && when == pooled_begin(replies)),
        replies.len() > 12 ==> (replies[12] matches Reply::Event(
            Payload::ClaimsReady { when, .. },
        ) && when == pooled_begin(replies)),
{
    assert(replies.take(replies.len() as int) =~= replies);
    lemma_run(alice, replies, replies.len() as int);
    if replies.len() > 3 {
        assert(is_good(alice, replies, 3));
    }
    if replies.len() > 10 {
        assert(is_good(alice, replies, 10));
    }
    if replies.len() > 12 {
        assert(is_good(alice, replies, 12));
    }
}

/// What a run that has not failed asks for next.
pub open spec fn asked_for(alice: AccountId, replies: Seq<Reply>) -> Action {
    let scenario = run(Scenario::initial(alice), replies)->Ok_0;
    scenario.stage.spec_action(scenario.alice)
}

/// Once the watchers are started, Alice teleports 1.5 billion units from the relay chain to the same
/// account on the coretime parachain. The fees come out of what is teleported.
pub proof fn law_alice_teleports_to_own_account(alice: AccountId, replies: Seq<Reply>)
    requires
        replies.len() == 2,
        run(Scenario::initial(alice), replies) is Ok,
    ensures
        asked_for(alice, replies) == (Action::Submit {
            chain: Chain::Relay,
            signer: Signer::Alice,
            call: Call::TeleportAssets {
                para_id: 1005,
                beneficiary: alice,
                amount: 1_500_000_000,
                fee_asset_item: 0,
            },
        }),
{
    assert(replies.take(replies.len() as int) =~= replies);
    lemma_run(alice, replies, replies.len() as int);
}

/// What was teleported is awaited on the account that it was teleported to.
pub proof fn law_teleport_is_awaited_on_same_account(alice: AccountId, replies: Seq<Reply>)
    requires
        replies.len() == 3,
        run(Scenario::initial(alice), replies) is Ok,
    ensures
        asked_for(alice, replies) matches Action::WaitFor(awaited) && awaited == (Awaited::Minted {
            to: alice,
        }),
        asked_for(alice, replies.take(2)) matches Action::Submit {
            call: Call::TeleportAssets { beneficiary, .. },
            ..
        } && beneficiary == alice,
{
    assert(replies.take(replies.len() as int) =~= replies);
    lemma_run(alice, replies, replies.len() as int);
    lemma_run(alice, replies, 2);
    assert(replies.take(2) =~= replies.drop_last());
}

/// When the teleport has been checked, Alice sets up the broker on the parachain.
pub proof fn law_broker_is_set_up_by_alice(alice: AccountId, replies: Seq<Reply>)
    requires
        replies.len() == 5,
        run(Scenario::initial(alice), replies) is Ok,
    ensures
        asked_for(alice, replies) == (Action::Submit {
            chain: Chain::Para,
            signer: Signer::Alice,
            call: Call::SetUpBroker,
        }),
{
    assert(replies.take(replies.len() as int) =~= replies);
    lemma_run(alice, replies, replies.len() as int);
}

/// In the full-length sale Alice buys a region on the parachain for a billion units at most, whatever
/// the two sales were.
pub proof fn law_region_is_bought_within_limit(alice: AccountId, replies: Seq<Reply>)
    requires
        replies.len() == 8,
        run(Scenario::initial(alice), replies) is Ok,
    ensures
        replies[6] is Event,
        replies[6]->Event_0 is SaleInitialized,
        replies[7] is Event,
        replies[7]->Event_0 is SaleInitialized,
        asked_for(alice, replies) == (Action::Submit {
            chain: Chain::Para,
            signer: Signer::Alice,
            call: Call::Purchase { price_limit: 1_000_000_000 },
        }),
{
    assert(replies.take(replies.len() as int) =~= replies);
    lemma_run(alice, replies, replies.len() as int);
    assert(is_good(alice, replies, 6));
    assert(is_good(alice, replies, 7));
}

/// The region that Alice puts into the pool is the one that was bought, in its beginning, its core
/// and its mask. It is put there for good, and the revenue goes to Alice.
pub proof fn law_bought_region_is_pooled(alice: AccountId, replies: Seq<Reply>)
    requires
        replies.len() == 9,
        run(Scenario::initial(alice), replies) is Ok,
    ensures
        ({
            let bought = replies[8]->Receipt_0->Purchased_region;
            &&& replies[8] is Receipt
            &&& replies[8]->Receipt_0 is Purchased
            &&& asked_for(alice, replies) matches Action::Submit {
                chain,
                signer,
                call: Call::Pool { region, payee, finality },
            }
            &&& chain == Chain::Para
            &&& signer == Signer::Alice
            &&& region.begin == bought.begin
            &&& region.core == bought.core
            &&& region.mask == bought.mask
            &&& payee == alice
            &&& finality == Finality::Final
        }),
{
    assert(replies.take(replies.len() as int) =~= replies);
    lemma_run(alice, replies, replies.len() as int);
    assert(is_good(alice, replies, 8));
}

/// The history that is awaited is that of the timeslice at which the region begins that was pooled.
pub proof fn law_history_of_pooled_region_is_awaited(alice: AccountId, replies: Seq<Reply>)
    requires
        replies.len() == 10,
        run(Scenario::initial(alice), replies) is Ok,
    ensures
        replies[9] is Receipt,
        replies[9]->Receipt_0 is Pooled,
        asked_for(alice, replies) == Action::WaitFor(
            Awaited::HistoryInitialized { when: replies[9]->Receipt_0->Pooled_region.begin },
        ),
{
    assert(replies.take(replies.len() as int) =~= replies);
    lemma_run(alice, replies, replies.len() as int);
    assert(is_good(alice, replies, 9));
}

/// Bob orders on-demand coretime on the relay chain for the same parachain and at the same limit,
/// whatever was pooled. The limit allows for the base fee.
pub proof fn law_order_is_placed_whatever_was_pooled(alice: AccountId, replies: Seq<Reply>)
    requires
        replies.len() == 11,
        run(Scenario::initial(alice), replies) is Ok,
    ensures
        asked_for(alice, replies) matches Action::Submit {
            chain,
            signer,
            call: Call::PlaceOrder { max_amount, para_id },
        } && chain == Chain::Relay && signer == Signer::Bob && max_amount == 100_000_000 && para_id
            == 100 && max_amount >= ON_DEMAND_BASE_FEE,
{
    assert(replies.take(replies.len() as int) =~= replies);
    lemma_run(alice, replies, replies.len() as int);
}

/// The claims that are awaited are those of the timeslice at which the region begins that was pooled.
pub proof fn law_claims_of_pooled_region_are_awaited(alice: AccountId, replies: Seq<Reply>)
    requires
        replies.len() == 12,
        run(Scenario::initial(alice), replies) is Ok,
    ensures
        asked_for(alice, replies) == Action::WaitFor(
            Awaited::ClaimsReady { when: replies[9]->Receipt_0->Pooled_region.begin },
        ),
{
    assert(replies.take(replies.len() as int) =~= replies);
    lemma_run(alice, replies, replies.len() as int);
    assert(is_good(alice, replies, 9));
}

/// Alice claims, on the parachain, the revenue of exactly the region that was pooled, for exactly the
/// number of timeslices that it was pooled for.
pub proof fn law_pooled_region_is_claimed_for_its_duration(alice: AccountId, replies: Seq<Reply>)
    requires
        replies.len() == 14,
        run(Scenario::initial(alice), replies) is Ok,
    ensures
        ({
            let pooled = replies[9]->Receipt_0->Pooled_region;
            let duration = replies[9]->Receipt_0->duration;
            &&& replies[9] is Receipt
            &&& replies[9]->Receipt_0 is Pooled
            &&& asked_for(alice, replies) matches Action::Submit {
                chain,
                signer,
                call: Call::ClaimRevenue { region, max_timeslices },
            }
            &&& chain == Chain::Para
            &&& signer == Signer::Alice
            &&& region.begin == pooled.begin
            &&& region.core == pooled.core
            &&& region.mask == pooled.mask
            &&& max_timeslices == duration
        }),
{
    assert(replies.take(replies.len() as int) =~= replies);
    lemma_run(alice, replies, replies.len() as int);
    assert(is_good(alice, replies, 9));
}

/// A run reads the issuance at its start, after the teleport, after the revenue came and after the
/// burn. It waits for a sale twice before the purchase and twice after the claim. It has succeeded
/// once the last reading is in, and at no other time.
pub proof fn law_readings_and_sales_come_at_their_time(alice: AccountId, replies: Seq<Reply>)
    requires
        run(Scenario::initial(alice), replies) is Ok,
    ensures
        ({
            let n = replies.len();
            let action = asked_for(alice, replies);
            &&& n <= 18
            &&& action is MeasureIssuance <==> n == 0 || n == 4 || n == 13 || n == 17
            &&& action is StartWatchers <==> n == 1
            &&& action == Action::WaitFor(Awaited::SaleInitialized) <==> n == 6 || n == 7 || n == 15
                || n == 16
            &&& action is WaitFor <==> n == 3 || n == 6 || n == 7 || n == 10 || n == 12 || n == 15
                || n == 16
            &&& action is Submit <==> n == 2 || n == 5 || n == 8 || n == 9 || n == 11 || n == 14
            &&& action is Finish <==> n == 18
            &&& !(action is Stop)
        }),
{
    assert(replies.take(replies.len() as int) =~= replies);
    lemma_run(alice, replies, replies.len() as int);
}

/// Of a run that has failed nothing more is asked, whoever it is for, and it accepts no reply.
pub proof fn law_failed_run_asks_for_nothing(scenario: Scenario, reply: Reply)
    requires
        scenario.stage is Failed,
    ensures
        scenario.stage.spec_action(scenario.alice) == Action::Stop,
        scenario.after(reply) == Err::<Scenario, Failure>(Failure::OutOfTurn),
{
}

/// A run fails for an empty private pool exactly if the history that it waits for has one: a single
/// part in the pool will do.
pub proof fn law_any_private_contribution_will_do(scenario: Scenario, reply: Reply)
    ensures
        scenario.after(reply) == Err::<Scenario, Failure>(Failure::EmptyPrivatePool) <==> {
            &&& scenario.stage matches Stage::AwaitingHistory { region, .. }
            &&& reply matches Reply::Event(Payload::HistoryInitialized { when, private_pool_size })
            &&& when == region.begin
            &&& private_pool_size == 0
        },
{
}

/// A run fails for the price of its order exactly if that is not the base fee, and reports what was
/// paid.
pub proof fn law_order_costs_base_fee(scenario: Scenario, reply: Reply, paid: u128)
    ensures
        scenario.after(reply) == Err::<Scenario, Failure>(Failure::SpotPrice { paid }) <==> {
            &&& scenario.stage is PlacingOrder
            &&& reply == Reply::Receipt(Receipt::OrderPlaced { spot_price: paid })
            &&& paid != 50_000_000
        },
{
}

/// A run fails for the private payout exactly if the claims that it waits for do not pay half of the
/// base fee, and reports what they pay.
pub proof fn law_private_payout_is_half_base_fee(scenario: Scenario, reply: Reply, payout: u128)
    ensures
        scenario.after(reply) == Err::<Scenario, Failure>(Failure::PrivatePayout { payout }) <==> {
            &&& scenario.stage matches Stage::AwaitingClaims { region, .. }
            &&& reply matches Reply::Event(Payload::ClaimsReady { when, private_payout })
            &&& when == region.begin
            &&& private_payout == payout
            &&& payout != 25_000_000
        },
{
}

/// A run fails for its claim exactly if that does not pay half of the base fee, and reports what it
/// paid.
pub proof fn law_claim_pays_half_base_fee(scenario: Scenario, reply: Reply, amount: u128)
    ensures
        scenario.after(reply) == Err::<Scenario, Failure>(Failure::ClaimPayout { amount }) <==> {
            &&& scenario.stage is Claiming
            &&& reply == Reply::Receipt(Receipt::ClaimPaid { amount })
            &&& amount != 25_000_000
        },
{
}

/// A run fails for want of an event exactly if it is that of a purchase, a pooling, an order or a
/// claim which is not there or does not decode.
pub proof fn law_receipts_are_needed(scenario: Scenario, reply: Reply)
    ensures
        ({
            let wanted = scenario.stage is Purchasing || scenario.stage is Pooling
                || scenario.stage is PlacingOrder || scenario.stage is Claiming;
            let outcome = scenario.after(reply);
            &&& outcome == Err::<Scenario, Failure>(Failure::ReceiptMissing) <==> wanted && reply
                == Reply::Receipt(Receipt::Missing)
            &&& outcome == Err::<Scenario, Failure>(Failure::ReceiptUndecodable) <==> wanted && reply
                == Reply::Receipt(Receipt::Undecodable)
        }),
{
}

/// A run fails for the issuance exactly if a reading after the teleport, after the revenue came or
/// after the burn differs from what it expects on either chain, and reports both.
pub proof fn law_issuance_is_compared_on_both_chains(
    scenario: Scenario,
    reply: Reply,
    mismatch: IssuanceMismatch,
)
    ensures
        scenario.after(reply) == Err::<Scenario, Failure>(Failure::Issuance(mismatch)) <==> {
            &&& scenario.stage is CheckingTeleport || scenario.stage is CheckingRevenue
                || scenario.stage is CheckingBurn
            &&& reply matches Reply::Issuance(actual)
            &&& actual.relay != scenario.expected.relay || actual.para != scenario.expected.para
            &&& mismatch.actual == actual
            &&& mismatch.expected == scenario.expected
        },
{
}

/// A run fails for the range of the issuance exactly if what has just happened cannot be accounted
/// for: the mint of what was teleported, the price of the region, the fee of the order, or the burn
/// of the system revenue.
pub proof fn law_accounting_stays_in_range(scenario: Scenario, reply: Reply)
    ensures
        ({
            let expected = scenario.expected;
            scenario.after(reply) == Err::<Scenario, Failure>(Failure::IssuanceOutOfRange) <==> {
                ||| {
                    &&& scenario.stage is AwaitingMint
                    &&& reply matches Reply::Event(Payload::Minted { who })
                    &&& who@ == scenario.alice@
                    &&& expected.para + 1_500_000_000 > u128::MAX
                }
                ||| {
                    &&& scenario.stage is Purchasing
                    &&& reply matches Reply::Receipt(Receipt::Purchased { price, .. })
                    &&& price > expected.relay || price > expected.para
                }
                ||| {
                    &&& scenario.stage is PlacingOrder
                    &&& reply == Reply::Receipt(Receipt::OrderPlaced { spot_price: 50_000_000 })
                    &&& expected.para + 50_000_000 > u128::MAX
                }
                ||| {
                    &&& scenario.stage is AwaitingBoundary
                    &&& reply matches Reply::Event(payload)
                    &&& payload is SaleInitialized
                    &&& expected.relay < 25_000_000 || expected.para < 25_000_000
                }
            }
        }),
{
}

/// A reply is out of turn exactly if it does not answer what was asked for: a reading with an
/// issuance, a transaction with what came of it, a wait with the event on the right account or of
/// the right timeslice.
pub proof fn law_reply_answers_what_was_asked(scenario: Scenario, reply: Reply)
    ensures
        ({
            let stage = scenario.stage;
            scenario.after(reply) != Err::<Scenario, Failure>(Failure::OutOfTurn) <==> match reply {
                Reply::Issuance(_) => stage is Reference || stage is CheckingTeleport
                    || stage is CheckingRevenue || stage is CheckingBurn,
                Reply::Watching => stage is StartingWatchers,
                Reply::Pushed => stage is Teleporting || stage is SettingUpBroker,
                Reply::Receipt(Receipt::Purchased { .. }) => stage is Purchasing,
                Reply::Receipt(Receipt::Pooled { .. }) => stage is Pooling,
                Reply::Receipt(Receipt::OrderPlaced { .. }) => stage is PlacingOrder,
                Reply::Receipt(Receipt::ClaimPaid { .. }) => stage is Claiming,
                Reply::Receipt(Receipt::Missing) | Reply::Receipt(Receipt::Undecodable) => stage
                    is Purchasing || stage is Pooling || stage is PlacingOrder || stage is Claiming,
                Reply::Event(Payload::Minted { who }) => stage is AwaitingMint && who@
                    == scenario.alice@,
                Reply::Event(Payload::SaleInitialized(_)) => stage is AwaitingShortSale
                    || stage is AwaitingFullSale || stage is AwaitingBoundary
                    || stage is AwaitingBurn,
                Reply::Event(Payload::HistoryInitialized { when, .. }) => {
                    &&& stage matches Stage::AwaitingHistory { region, .. }
                    &&& when == region.begin
                },
                Reply::Event(Payload::ClaimsReady { when, .. }) => {
                    &&& stage matches Stage::AwaitingClaims { region, .. }
                    &&& when == region.begin
                },
                Reply::Event(Payload::Other) => false,
            }
        }),
{
}

/// What a run expects changes with five replies alone. The first reading sets it. The mint adds 1.5
/// billion units on the parachain. The purchase takes the price off both chains. The order adds the
/// base fee on the parachain. The first sale after the claim takes half of it off both chains.
pub proof fn law_expectations_change_by_what_happens(scenario: Scenario, reply: Reply)
    requires
        scenario.after(reply) is Ok,
    ensures
        ({
            let before = scenario.expected;
            let after = scenario.after(reply)->Ok_0.expected;
            let stage = scenario.stage;
            &&& stage is Reference ==> reply == Reply::Issuance(after)
            &&& !(stage is Reference) ==> before.relay - after.relay == (if stage is Purchasing {
                reply->Receipt_0->Purchased_price as int
            } else if stage is AwaitingBoundary {
                25_000_000
            } else {
                0
            })
            &&& stage is AwaitingMint ==> after.para - before.para == 1_500_000_000
            &&& stage is PlacingOrder ==> after.para - before.para == 50_000_000
            &&& !(stage is Reference || stage is AwaitingMint || stage is PlacingOrder)
                ==> before.para - after.para == before.relay - after.relay
        }),
{
}

/// A region that was pooled is remembered, with how long it was pooled for, until it is claimed, and
/// nothing but what the pooling reported is remembered of it.
pub proof fn law_pooled_region_is_remembered(scenario: Scenario, reply: Reply)
    requires
        scenario.after(reply) is Ok,
    ensures
        ({
            let next = scenario.after(reply)->Ok_0.stage;
            &&& scenario.stage is Purchasing ==> {
                &&& reply matches Reply::Receipt(Receipt::Purchased { region, .. })
                &&& next == (Stage::Pooling { region })
            }
            &&& scenario.stage is Pooling ==> {
                &&& reply matches Reply::Receipt(Receipt::Pooled { region, duration })
                &&& next == (Stage::AwaitingHistory { region, duration })
            }
            &&& scenario.stage matches Stage::AwaitingHistory { region, duration } ==> next == (
            Stage::PlacingOrder { region, duration })
            &&& scenario.stage matches Stage::PlacingOrder { region, duration } ==> next == (
            Stage::AwaitingClaims { region, duration })
            &&& scenario.stage matches Stage::AwaitingClaims { region, duration } ==> next == (
            Stage::CheckingRevenue { region, duration })
            &&& scenario.stage matches Stage::CheckingRevenue { region, duration } ==> next == (
            Stage::Claiming { region, duration })
        }),
{
}

} // verus!
