//! The log of finalized parachain events, and taking awaited events out of it.

use crate::chain::{AccountId, Payload};
use vstd::prelude::*;

verus! {

/// An event of a finalized block.
pub struct Entry<D> {
    /// Number of the block the event was emitted in.
    pub block: u64,
    /// Name of the pallet that emitted it.
    pub pallet: String,
    /// Name of the event within the pallet.
    pub variant: String,
    /// What the event carries.
    pub details: D,
}

impl<D> Entry<D> {
    /// Whether the event is `pallet::variant`.
    pub open spec fn is_named(self, pallet: Seq<char>, variant: Seq<char>) -> bool {
        self.pallet@ == pallet && self.variant@ == variant
    }
}

/// What `predicate` may answer on the details of an entry: `Some(true)` that it is the one,
/// `Some(false)` that it is not, `None` that they do not decode.
pub open spec fn answers<D, P: Fn(&D) -> Option<bool>>(
    predicate: P,
    entry: Entry<D>,
    answer: Option<bool>,
) -> bool {
    predicate.ensures((&entry.details,), answer)
}

/// Whether a search for `pallet::variant` events that satisfy `predicate` goes past `entry`.
pub open spec fn passes_over<D, P: Fn(&D) -> Option<bool>>(
    predicate: P,
    pallet: Seq<char>,
    variant: Seq<char>,
    entry: Entry<D>,
) -> bool {
    entry.is_named(pallet, variant) ==> answers(predicate, entry, Some(false))
}

/// Whether such a search stops at position `i`, because `predicate` answers `answer` there.
pub open spec fn stops_at<D, P: Fn(&D) -> Option<bool>>(
    predicate: P,
    pallet: Seq<char>,
    variant: Seq<char>,
    log: Seq<Entry<D>>,
    i: int,
    answer: Option<bool>,
) -> bool {
    &&& 0 <= i < log.len()
    &&& log[i].is_named(pallet, variant)
    &&& answers(predicate, log[i], answer)
    &&& forall|j: int|
        0 <= j < i ==> passes_over(predicate, pallet, variant, #[trigger] log[j])
}

/// The entries of blocks after `block`, in the order in which they stand in `log`.
pub open spec fn after_block<D>(log: Seq<Entry<D>>, block: u64) -> Seq<Entry<D>> {
    log.filter(|entry: Entry<D>| entry.block > block)
}

/// Filtering does not see whether an element that it drops was there.
proof fn lemma_filter_remove<A>(s: Seq<A>, i: int, pred: spec_fn(A) -> bool)
    requires
        0 <= i < s.len(),
        !pred(s[i]),
    ensures
        s.remove(i).filter(pred) == s.filter(pred),
    decreases s.len(),
{
    reveal(Seq::filter);
    if i == s.len() - 1 {
        assert(s.remove(i) =~= s.drop_last());
    } else {
        lemma_filter_remove(s.drop_last(), i, pred);
        assert(s.remove(i).drop_last() =~= s.drop_last().remove(i));
        assert(s.remove(i).last() == s.last());
    }
}

/// An awaited event was found by its name, but what it carries did not decode.
#[derive(Clone, Copy, Debug, PartialEq, Eq, Structural)]
pub struct UndecodableEvent;

/// The events seen so far that no wait has consumed, oldest first.
pub struct EventLog<D> {
    entries: Vec<Entry<D>>,
}

impl<D> View for EventLog<D> {
    type V = Seq<Entry<D>>;

    closed spec fn view(&self) -> Seq<Entry<D>> {
        self.entries@
    }
}

impl<D> EventLog<D> {
    /// An empty log.
    pub fn new() -> (log: Self)
        ensures
            log@ == Seq::<Entry<D>>::empty(),
    {
        EventLog { entries: Vec::new() }
    }

    /// Appends an event of a finalized block, and says whether it is a broker event worth tracing.
    pub fn record(&mut self, block: u64, pallet: String, variant: String, details: D) -> (traced:
        Option<BrokerEvent>)
        ensures
            final(self)@ == old(self)@.push(Entry { block, pallet, variant, details }),
            match traced {
                Some(event) => event.is_event(pallet@, variant@),
                None => forall|event: BrokerEvent| !#[trigger] event.is_event(pallet@, variant@),
            },
    {
        let traced = BrokerEvent::classify(&pallet, &variant);
        self.entries.push(Entry { block, pallet, variant, details });
        traced
    }

    /// Takes the oldest `pallet::variant` event that satisfies `predicate` out of the log, along
    /// with every event of its block and of the blocks before.
    ///
    /// Without such an event the log stays as it is, and so it does when the search comes upon
    /// an event of that name whose details `predicate` cannot decode.
    pub fn take_first<P: Fn(&D) -> Option<bool>>(
        &mut self,
        pallet: &str,
        variant: &str,
        predicate: P,
    ) -> (taken: Result<Option<Entry<D>>, UndecodableEvent>)
        requires
            forall|i: int|
                #![trigger old(self)@[i]]
                0 <= i < old(self)@.len() && old(self)@[i].is_named(pallet@, variant@)
                    ==> predicate.requires((&old(self)@[i].details,)),
        ensures
            match taken {
                Ok(Some(entry)) => {
                    &&& exists|i: int|
                        {
                            &&& #[trigger] stops_at(
                                predicate,
                                pallet@,
                                variant@,
                                old(self)@,
                                i,
                                Some(true),
                            )
                            &&& entry == old(self)@[i]
                        }
                    &&& final(self)@ == after_block(old(self)@, entry.block)
                },
                Ok(None) => {
                    &&& forall|i: int|
                        0 <= i < old(self)@.len() ==> passes_over(
                            predicate,
                            pallet@,
                            variant@,
                            #[trigger] old(self)@[i],
                        )
                    &&& final(self)@ == old(self)@
                },
                Err(_) => {
                    &&& exists|i: int| #[trigger]
                        stops_at(predicate, pallet@, variant@, old(self)@, i, None)
                    &&& final(self)@ == old(self)@
                },
            },
    {
        let wanted_pallet: String = pallet.to_owned();
        let wanted_variant: String = variant.to_owned();
        let ghost log = self.entries@;
        assert(old(self)@ == log);
        let mut i: usize = 0;
        while i < self.entries.len()
            invariant
                self.entries@ == log,
                old(self)@ == log,
                i <= log.len(),
                wanted_pallet@ == pallet@,
                wanted_variant@ == variant@,
                forall|j: int|
                    #![trigger log[j]]
                    0 <= j < log.len() && log[j].is_named(pallet@, variant@)
                        ==> predicate.requires((&log[j].details,)),
                forall|j: int|
                    0 <= j < i ==> passes_over(predicate, pallet@, variant@, #[trigger] log[j]),
            decreases log.len() - i,
        {
            let entry = &self.entries[i];
            if entry.pallet == wanted_pallet && entry.variant == wanted_variant {
                let answer = predicate(&entry.details);
                assert(answers(predicate, log[i as int], answer));
                match answer {
                    Some(true) => {
                        assert(stops_at(predicate, pallet@, variant@, log, i as int, Some(true)));
                        let taken = self.take_at(i);
                        return Ok(Some(taken));
                    },
                    Some(false) => {},
                    None => {
                        assert(stops_at(predicate, pallet@, variant@, log, i as int, None));
                        return Err(UndecodableEvent);
                    },
                }
            }
            i += 1;
        }
        Ok(None)
    }

    /// Removes the entry at `at`, along with every entry of its block and of the blocks before.
    fn take_at(&mut self, at: usize) -> (taken: Entry<D>)
        requires
            at < old(self)@.len(),
        ensures
            taken == old(self)@[at as int],
            final(self)@ == after_block(old(self)@, taken.block),
    {
        let ghost log = self.entries@;
        let block: u64 = self.entries[at].block;
        let ghost later = |entry: Entry<D>| entry.block > block;
        let taken = self.entries.remove(at);
        let ghost rest = self.entries@;
        let mut kept: Vec<Entry<D>> = Vec::new();
        let mut entries: Vec<Entry<D>> = Vec::new();
        std::mem::swap(&mut entries, &mut self.entries);
        for entry in it: entries.into_iter()
            invariant
                it.seq() == rest,
                kept@ == rest.take(it.index() as int).filter(later),
                later == (|entry: Entry<D>| entry.block > block),
        {
            proof {
                let n = it.index() as int;
                rest.take(n).lemma_filter_push(rest[n], later);
                assert(rest.take(n + 1) =~= rest.take(n).push(rest[n]));
            }
            if entry.block > block {
                kept.push(entry);
            }
        }
        assert(rest.take(rest.len() as int) =~= rest);
        proof {
            lemma_filter_remove(log, at as int, later);
        }
        self.entries = kept;
        taken
    }
}

/// The broker events whose contents are worth tracing.
#[derive(Clone, Copy, Debug, PartialEq, Eq, Structural)]
pub enum BrokerEvent {
    Purchased,
    SaleInitialized,
    HistoryInitialized,
    CoreAssigned,
    Pooled,
    ClaimsReady,
    RevenueClaimBegun,
    RevenueClaimItem,
    RevenueClaimPaid,
}

impl BrokerEvent {
    /// The name of the event within the broker pallet.
    pub open spec fn variant_name(self) -> Seq<char> {
        match self {
            BrokerEvent::Purchased => "Purchased"@,
            BrokerEvent::SaleInitialized => "SaleInitialized"@,
            BrokerEvent::HistoryInitialized => "HistoryInitialized"@,
            BrokerEvent::CoreAssigned => "CoreAssigned"@,
            BrokerEvent::Pooled => "Pooled"@,
            BrokerEvent::ClaimsReady => "ClaimsReady"@,
            BrokerEvent::RevenueClaimBegun => "RevenueClaimBegun"@,
            BrokerEvent::RevenueClaimItem => "RevenueClaimItem"@,
            BrokerEvent::RevenueClaimPaid => "RevenueClaimPaid"@,
        }
    }

    /// Whether `pallet::variant` is this event.
    pub open spec fn is_event(self, pallet: Seq<char>, variant: Seq<char>) -> bool {
        pallet == "Broker"@ && variant == self.variant_name()
    }

    /// The broker event that `pallet::variant` is, if it is one worth tracing.
    pub fn classify(pallet: &String, variant: &String) -> (event: Option<BrokerEvent>)
        ensures
            match event {
                Some(event) => event.is_event(pallet@, variant@),
                None => forall|event: BrokerEvent| !#[trigger] event.is_event(pallet@, variant@),
            },
    {
        if *pallet != "Broker".to_owned() {
            None
        } else if *variant == "Purchased".to_owned() {
            Some(BrokerEvent::Purchased)
        } else if *variant == "SaleInitialized".to_owned() {
            Some(BrokerEvent::SaleInitialized)
        } else if *variant == "HistoryInitialized".to_owned() {
            Some(BrokerEvent::HistoryInitialized)
        } else if *variant == "CoreAssigned".to_owned() {
            Some(BrokerEvent::CoreAssigned)
        } else if *variant == "Pooled".to_owned() {
            Some(BrokerEvent::Pooled)
        } else if *variant == "ClaimsReady".to_owned() {
            Some(BrokerEvent::ClaimsReady)
        } else if *variant == "RevenueClaimBegun".to_owned() {
            Some(BrokerEvent::RevenueClaimBegun)
        } else if *variant == "RevenueClaimItem".to_owned() {
            Some(BrokerEvent::RevenueClaimItem)
        } else if *variant == "RevenueClaimPaid".to_owned() {
            Some(BrokerEvent::RevenueClaimPaid)
        } else {
            None
        }
    }
}

/// An event that the run waits for on the parachain.
#[derive(Clone, Copy, Debug, PartialEq, Eq)]
pub enum Awaited {
    /// Tokens are minted on an account.
    Minted { to: AccountId },
    /// A sale begins.
    SaleInitialized,
    /// The pools of a timeslice are fixed.
    HistoryInitialized { when: u32 },
    /// The revenue of a timeslice can be claimed.
    ClaimsReady { when: u32 },
}

impl Awaited {
    /// The name of the pallet that emits the event.
    pub open spec fn pallet_name(self) -> Seq<char> {
        match self {
            Awaited::Minted { .. } => "Balances"@,
            _ => "Broker"@,
        }
    }

    /// The name of the event within the pallet.
    pub open spec fn variant_name(self) -> Seq<char> {
        match self {
            Awaited::Minted { .. } => "Minted"@,
            Awaited::SaleInitialized => "SaleInitialized"@,
            Awaited::HistoryInitialized { .. } => "HistoryInitialized"@,
            Awaited::ClaimsReady { .. } => "ClaimsReady"@,
        }
    }

    /// Whether an event of the awaited name with this payload is the awaited one; `None` where
    /// the payload is not one that events of that name carry.
    pub open spec fn verdict(self, payload: Payload) -> Option<bool> {
        match (self, payload) {
            (Awaited::Minted { to }, Payload::Minted { who }) => Some(who@ == to@),
            (Awaited::SaleInitialized, Payload::SaleInitialized(_)) => Some(true),
            (
                Awaited::HistoryInitialized { when: wanted },
                Payload::HistoryInitialized { when, .. },
            ) => Some(when == wanted),
            (Awaited::ClaimsReady { when: wanted }, Payload::ClaimsReady { when, .. }) => Some(
                when == wanted,
            ),
            _ => None,
        }
    }

    /// Whether a wait for this event ends at `entry`, be it with the event or because the entry
    /// has the name of the event and does not decode.
    pub open spec fn is_settled_by(self, entry: Entry<Payload>) -> bool {
        &&& entry.is_named(self.pallet_name(), self.variant_name())
        &&& self.verdict(entry.details) != Some(false)
    }

    /// Whether the oldest entry of `log` at which a wait for this event ends stands at `i`.
    pub open spec fn is_settled_at(self, log: Seq<Entry<Payload>>, i: int) -> bool {
        &&& 0 <= i < log.len()
        &&& self.is_settled_by(log[i])
        &&& forall|j: int| 0 <= j < i ==> !self.is_settled_by(#[trigger] log[j])
    }

    /// The name of the pallet that emits the event.
    pub fn pallet(&self) -> (name: &'static str)
        ensures
            name@ == self.pallet_name(),
    {
        match self {
            Awaited::Minted { .. } => "Balances",
            _ => "Broker",
        }
    }

    /// The name of the event within the pallet.
    pub fn variant(&self) -> (name: &'static str)
        ensures
            name@ == self.variant_name(),
    {
        match self {
            Awaited::Minted { .. } => "Minted",
            Awaited::SaleInitialized => "SaleInitialized",
            Awaited::HistoryInitialized { .. } => "HistoryInitialized",
            Awaited::ClaimsReady { .. } => "ClaimsReady",
        }
    }

    /// Whether an event of the awaited name with this payload is the awaited one; `None` where
    /// the payload is not one that events of that name carry.
    pub fn accepts(&self, payload: &Payload) -> (verdict: Option<bool>)
        ensures
            verdict == self.verdict(*payload),
    {
        match (self, payload) {
            (Awaited::Minted { to }, Payload::Minted { who }) => Some(who.same_as(to)),
            (Awaited::SaleInitialized, Payload::SaleInitialized(_)) => Some(true),
            (
                Awaited::HistoryInitialized { when: wanted },
                Payload::HistoryInitialized { when, .. },
            ) => Some(*when == *wanted),
            (Awaited::ClaimsReady { when: wanted }, Payload::ClaimsReady { when, .. }) => Some(
                *when == *wanted,
            ),
            _ => None,
        }
    }
}

/// How long a wait sleeps between two looks at the log, in seconds.
pub const POLL_INTERVAL_SECS: u64 = 6;

/// What a look at the log for an awaited event comes to.
#[derive(Clone, Copy, Debug, PartialEq, Eq)]
pub enum Poll {
    /// The event is there and has been consumed.
    Found(Payload),
    /// It is not there yet: sleep, then look again.
    Sleep { seconds: u64 },
    /// An event of its name was there and did not decode.
    Undecodable,
}

impl EventLog<Payload> {
    /// Looks once for an awaited event, and consumes it with everything up to the end of its
    /// block if it is there.
    pub fn poll(&mut self, awaited: &Awaited) -> (poll: Poll)
        ensures
            match poll {
                Poll::Found(payload) => exists|i: int|
                    {
                        &&& #[trigger] awaited.is_settled_at(old(self)@, i)
                        &&& awaited.verdict(old(self)@[i].details) == Some(true)
                        &&& payload == old(self)@[i].details
                        &&& final(self)@ == after_block(old(self)@, old(self)@[i].block)
                    },
                Poll::Sleep { seconds } => {
                    &&& forall|i: int|
                        0 <= i < old(self)@.len() ==> !awaited.is_settled_by(
                            #[trigger] old(self)@[i],
                        )
                    &&& seconds == POLL_INTERVAL_SECS
                    &&& final(self)@ == old(self)@
                },
                Poll::Undecodable => {
                    &&& exists|i: int|
                        {
                            &&& #[trigger] awaited.is_settled_at(old(self)@, i)
                            &&& awaited.verdict(old(self)@[i].details) is None
                        }
                    &&& final(self)@ == old(self)@
                },
            },
    {
        let predicate = |details: &Payload| -> (answer: Option<bool>)
            ensures
                answer == awaited.verdict(*details),
            { awaited.accepts(details) };
        let ghost log = self@;
        let taken = self.take_first(awaited.pallet(), awaited.variant(), predicate);
        let ghost pallet = awaited.pallet_name();
        let ghost variant = awaited.variant_name();
        assert(forall|entry: Entry<Payload>| #[trigger]
            passes_over(predicate, pallet, variant, entry) ==> !awaited.is_settled_by(entry));
        match taken {
            Ok(Some(entry)) => {
                proof {
                    let i = choose|i: int|
                        {
                            &&& #[trigger] stops_at(predicate, pallet, variant, log, i, Some(true))
                            &&& entry == log[i]
                        };
                    assert(awaited.is_settled_at(log, i));
                }
                Poll::Found(entry.details)
            },
            Ok(None) => Poll::Sleep { seconds: POLL_INTERVAL_SECS },
            Err(_) => {
                proof {
                    let i = choose|i: int| #[trigger]
                        stops_at(predicate, pallet, variant, log, i, None);
                    assert(awaited.is_settled_at(log, i));
                }
                Poll::Undecodable
            },
        }
    }
}

/// Whether the blocks of a log never go down, as those of a log that is fed block by block do not.
pub open spec fn is_chronological<D>(log: Seq<Entry<D>>) -> bool {
    forall|i: int, j: int| 0 <= i <= j < log.len() ==> log[i].block <= log[j].block
}

/// No two broker events worth tracing share a name, so an event is traced as one of them at most.
pub proof fn law_broker_events_are_told_apart(
    a: BrokerEvent,
    b: BrokerEvent,
    pallet: Seq<char>,
    variant: Seq<char>,
)
    requires
        a.is_event(pallet, variant),
        b.is_event(pallet, variant),
    ensures
        a == b,
{
    reveal_strlit("Purchased");
    reveal_strlit("SaleInitialized");
    reveal_strlit("HistoryInitialized");
    reveal_strlit("CoreAssigned");
    reveal_strlit("Pooled");
    reveal_strlit("ClaimsReady");
    reveal_strlit("RevenueClaimBegun");
    reveal_strlit("RevenueClaimItem");
    reveal_strlit("RevenueClaimPaid");
    if a != b {
        assert(a.variant_name().len() == b.variant_name().len());
        assert(a.variant_name()[0] == b.variant_name()[0]);
        assert(a.variant_name()[2] == b.variant_name()[2]);
        if a.variant_name().len() == 16 {
            assert(a.variant_name()[12] == b.variant_name()[12]);
        }
    }
}

/// Consuming an event leaves exactly the entries of later blocks: nothing of its block or of an
/// earlier one comes back, and nothing of a later one is lost.
pub proof fn law_consuming_keeps_exactly_later_blocks<D>(log: Seq<Entry<D>>, block: u64)
    ensures
        forall|i: int|
            0 <= i < after_block(log, block).len() ==> {
                &&& (#[trigger] after_block(log, block)[i]).block > block
                &&& log.contains(after_block(log, block)[i])
            },
        forall|i: int|
            0 <= i < log.len() && (#[trigger] log[i]).block > block ==> after_block(
                log,
                block,
            ).contains(log[i]),
{
    let later = |entry: Entry<D>| entry.block > block;
    assert forall|i: int| 0 <= i < after_block(log, block).len() implies {
        &&& (#[trigger] after_block(log, block)[i]).block > block
        &&& log.contains(after_block(log, block)[i])
    } by {
        log.lemma_filter_pred(later, i);
        log.lemma_filter_contains_rev(later, after_block(log, block)[i]);
    }
    assert forall|i: int| 0 <= i < log.len() && (#[trigger] log[i]).block > block implies after_block(
        log,
        block,
    ).contains(log[i]) by {
        log.lemma_filter_contains(later, i);
    }
}

/// Recording an event of the block that is being recorded, or of a later one, keeps a log
/// chronological.
pub proof fn law_recording_keeps_chronology<D>(log: Seq<Entry<D>>, entry: Entry<D>)
    requires
        is_chronological(log),
        log.len() > 0 ==> log.last().block <= entry.block,
    ensures
        is_chronological(log.push(entry)),
{
}

/// Of a chronological log, consuming an event cuts off a prefix: the entries up to the end of the
/// block of the event. What is left is chronological again.
pub proof fn law_consuming_cuts_a_prefix<D>(log: Seq<Entry<D>>, block: u64)
    requires
        is_chronological(log),
    ensures
        exists|n: int|
            {
                &&& 0 <= n <= log.len()
                &&& after_block(log, block) == #[trigger] log.skip(n)
                &&& forall|i: int| 0 <= i < n ==> (#[trigger] log[i]).block <= block
            },
        is_chronological(after_block(log, block)),
    decreases log.len(),
{
    let later = |entry: Entry<D>| entry.block > block;
    reveal(Seq::filter);
    if log.len() == 0 {
        assert(after_block(log, block) =~= log.skip(0));
    } else {
        let init = log.drop_last();
        law_consuming_cuts_a_prefix(init, block);
        let n = choose|n: int|
            {
                &&& 0 <= n <= init.len()
                &&& after_block(init, block) == #[trigger] init.skip(n)
                &&& forall|i: int| 0 <= i < n ==> (#[trigger] init[i]).block <= block
            };
        if log.last().block > block {
            assert(after_block(log, block) =~= log.skip(n));
            assert forall|i: int| 0 <= i < n implies (#[trigger] log[i]).block <= block by {
                assert(init[i] == log[i]);
            }
        } else {
            let len = log.len() as int;
            assert(init.skip(n).len() == 0) by {
                if init.skip(n).len() > 0 {
                    assert(after_block(init, block)[0].block > block) by {
                        init.lemma_filter_pred(later, 0);
                    }
                    assert(init.skip(n)[0] == log[n]);
                    assert(log[n].block <= log[len - 1].block);
                }
            }
            assert(after_block(log, block) =~= log.skip(len));
            assert forall|i: int| 0 <= i < len implies (#[trigger] log[i]).block <= block by {
                assert(log[i].block <= log[len - 1].block);
            }
        }
    }
}

/// Two waits never end in the same block: after a wait has consumed an event of some block, and
/// with only events of later blocks recorded since, whatever the next wait ends at is of a later
/// block.
pub proof fn law_waits_move_on(
    log: Seq<Entry<Payload>>,
    first: Awaited,
    i: int,
    recorded: Seq<Entry<Payload>>,
    second: Awaited,
    j: int,
)
    requires
        first.is_settled_at(log, i),
        forall|k: int| 0 <= k < recorded.len() ==> (#[trigger] recorded[k]).block > log[i].block,
        second.is_settled_at(after_block(log, log[i].block) + recorded, j),
    ensures
        (after_block(log, log[i].block) + recorded)[j].block > log[i].block,
{
    let rest = after_block(log, log[i].block);
    law_consuming_keeps_exactly_later_blocks(log, log[i].block);
    if j < rest.len() {
        assert((rest + recorded)[j] == rest[j]);
    } else {
        assert((rest + recorded)[j] == recorded[j - rest.len()]);
    }
}

/// A wait that a log does not settle is settled by the first settling event recorded after, and
/// by nothing before it.
pub proof fn law_wait_ends_at_first_settling_event(
    log: Seq<Entry<Payload>>,
    recorded: Seq<Entry<Payload>>,
    awaited: Awaited,
    i: int,
)
    requires
        forall|j: int| 0 <= j < log.len() ==> !awaited.is_settled_by(#[trigger] log[j]),
        awaited.is_settled_at(recorded, i),
    ensures
        awaited.is_settled_at(log + recorded, log.len() + i),
{
    assert((log + recorded)[log.len() + i] == recorded[i]);
    assert forall|j: int| 0 <= j < log.len() + i implies !awaited.is_settled_by(
        #[trigger] (log + recorded)[j],
    ) by {
        if j < log.len() {
            assert((log + recorded)[j] == log[j]);
        } else {
            assert((log + recorded)[j] == recorded[j - log.len()]);
        }
    }
}

/// A wait ends at one place of a log at most, so what it finds is determined.
pub proof fn law_wait_is_determined(
    log: Seq<Entry<Payload>>,
    awaited: Awaited,
    i: int,
    j: int,
)
    requires
        awaited.is_settled_at(log, i),
        awaited.is_settled_at(log, j),
    ensures
        i == j,
{
}

/// A wait for a mint is for one account: a mint on that account ends it, and a mint on any other is
/// passed over.
pub proof fn law_mint_is_awaited_for_one_account(to: AccountId, payload: Payload)
    ensures
        ({
            let verdict = (Awaited::Minted { to }).verdict(payload);
            &&& verdict == Some(true) <==> (payload matches Payload::Minted { who } && who@ == to@)
            &&& verdict == Some(false) <==> (payload matches Payload::Minted { who } && who@ != to@)
        }),
{
}

/// Any sale ends a wait for a sale, and none is passed over.
pub proof fn law_any_sale_ends_wait_for_sale(payload: Payload)
    ensures
        ({
            let verdict = Awaited::SaleInitialized.verdict(payload);
            &&& verdict == Some(true) <==> payload is SaleInitialized
            &&& verdict is None <==> !(payload is SaleInitialized)
        }),
{
}

/// A wait for the history or the claims of a timeslice is for that timeslice: those of any other are
/// passed over, and how large the pool or the payout is makes no difference.
pub proof fn law_timeslice_is_awaited_whatever_it_brings(wanted: u32, payload: Payload)
    ensures
        ({
            let verdict = (Awaited::HistoryInitialized { when: wanted }).verdict(payload);
            &&& verdict == Some(true) <==> (payload matches Payload::HistoryInitialized { when, .. }
                && when == wanted)
            &&& verdict == Some(false) <==> (payload matches Payload::HistoryInitialized { when, .. }
                && when != wanted)
        }),
        ({
            let verdict = (Awaited::ClaimsReady { when: wanted }).verdict(payload);
            &&& verdict == Some(true) <==> (payload matches Payload::ClaimsReady { when, .. } && when
                == wanted)
            &&& verdict == Some(false) <==> (payload matches Payload::ClaimsReady { when, .. }
                && when != wanted)
        }),
{
}

/// Of no event are there two waits that differ in what they are for and both end with it.
pub proof fn law_event_ends_one_wait(a: Awaited, b: Awaited, payload: Payload)
    requires
        a.verdict(payload) == Some(true),
        b.verdict(payload) == Some(true),
    ensures
        a is Minted ==> (b matches Awaited::Minted { to } && to@ == a->to@),
        a is SaleInitialized ==> b is SaleInitialized,
        a is HistoryInitialized ==> b == a,
        a is ClaimsReady ==> b == a,
{
}

/// Awaited events go by the names that the chain gives them, whatever they are awaited for.
pub proof fn law_awaited_events_go_by_their_names(to: AccountId, when: u32)
    ensures
        (Awaited::Minted { to }).pallet_name() == "Balances"@,
        (Awaited::Minted { to }).variant_name() == "Minted"@,
        Awaited::SaleInitialized.pallet_name() == "Broker"@,
        Awaited::SaleInitialized.variant_name() == "SaleInitialized"@,
        (Awaited::HistoryInitialized { when }).pallet_name() == "Broker"@,
        (Awaited::HistoryInitialized { when }).variant_name() == "HistoryInitialized"@,
        (Awaited::ClaimsReady { when }).pallet_name() == "Broker"@,
        (Awaited::ClaimsReady { when }).variant_name() == "ClaimsReady"@,
{
}

/// A wait ends at an entry exactly if the entry has the name of the awaited event and does not carry
/// another one of that name: one on another account, or of another timeslice.
pub proof fn law_wait_ends_by_name_and_contents(
    entry: Entry<Payload>,
    to: AccountId,
    wanted: u32,
)
    ensures
        (Awaited::Minted { to }).is_settled_by(entry) <==> {
            &&& entry.pallet@ == "Balances"@
            &&& entry.variant@ == "Minted"@
            &&& entry.details matches Payload::Minted { who } ==> who@ == to@
        },
        Awaited::SaleInitialized.is_settled_by(entry) <==> {
            &&& entry.pallet@ == "Broker"@
            &&& entry.variant@ == "SaleInitialized"@
        },
        (Awaited::HistoryInitialized { when: wanted }).is_settled_by(entry) <==> {
            &&& entry.pallet@ == "Broker"@
            &&& entry.variant@ == "HistoryInitialized"@
            &&& entry.details matches Payload::HistoryInitialized { when, .. } ==> when == wanted
        },
        (Awaited::ClaimsReady { when: wanted }).is_settled_by(entry) <==> {
            &&& entry.pallet@ == "Broker"@
            &&& entry.variant@ == "ClaimsReady"@
            &&& entry.details matches Payload::ClaimsReady { when, .. } ==> when == wanted
        },
{
}

/// What a wait finds is what it is for: a mint on the awaited account, a sale, or the history or the
/// claims of the awaited timeslice.
pub proof fn law_found_event_is_awaited_one(log: Seq<Entry<Payload>>, awaited: Awaited, i: int)
    requires
        awaited.is_settled_at(log, i),
        awaited.verdict(log[i].details) == Some(true),
    ensures
        0 <= i < log.len(),
        match awaited {
            Awaited::Minted { to } => {
                &&& log[i].pallet@ == "Balances"@
                &&& log[i].variant@ == "Minted"@
                &&& log[i].details matches Payload::Minted { who }
                &&& who@ == to@
            },
            Awaited::SaleInitialized => {
                &&& log[i].pallet@ == "Broker"@
                &&& log[i].variant@ == "SaleInitialized"@
                &&& log[i].details is SaleInitialized
            },
            Awaited::HistoryInitialized { when: wanted } => {
                &&& log[i].pallet@ == "Broker"@
                &&& log[i].variant@ == "HistoryInitialized"@
                &&& log[i].details matches Payload::HistoryInitialized { when, .. }
                &&& when == wanted
            },
            Awaited::ClaimsReady { when: wanted } => {
                &&& log[i].pallet@ == "Broker"@
                &&& log[i].variant@ == "ClaimsReady"@
                &&& log[i].details matches Payload::ClaimsReady { when, .. }
                &&& when == wanted
            },
        },
{
}

/// A wait does not go past the oldest entry at which it can end.
pub proof fn law_wait_ends_at_oldest_entry(
    log: Seq<Entry<Payload>>,
    awaited: Awaited,
    i: int,
    k: int,
)
    requires
        awaited.is_settled_at(log, i),
        0 <= k < log.len(),
        awaited.is_settled_by(log[k]),
    ensures
        0 <= i <= k,
        awaited.is_settled_by(log[i]),
{
}

/// A wait ends if there is any entry at which it can.
pub proof fn law_wait_ends_if_it_can(log: Seq<Entry<Payload>>, awaited: Awaited, k: int)
    requires
        0 <= k < log.len(),
        awaited.is_settled_by(log[k]),
    ensures
        exists|i: int| i <= k && #[trigger] awaited.is_settled_at(log, i),
    decreases k,
{
    if exists|j: int| 0 <= j < k && awaited.is_settled_by(#[trigger] log[j]) {
        let j = choose|j: int| 0 <= j < k && awaited.is_settled_by(#[trigger] log[j]);
        law_wait_ends_if_it_can(log, awaited, j);
    } else {
        assert(awaited.is_settled_at(log, k));
    }
}

/// A search goes past exactly those entries that have another name or that the predicate turns
/// down.
pub proof fn law_search_goes_by_name_then_predicate<D, P: Fn(&D) -> Option<bool>>(
    predicate: P,
    pallet: Seq<char>,
    variant: Seq<char>,
    entry: Entry<D>,
)
    ensures
        passes_over(predicate, pallet, variant, entry) <==> {
            ||| entry.pallet@ != pallet
            ||| entry.variant@ != variant
            ||| predicate.ensures((&entry.details,), Some(false))
        },
{
}

/// A search stops at an entry of the wanted name on which the predicate gives the answer, and every
/// older entry has another name or is turned down.
pub proof fn law_search_stops_at_oldest_match<D, P: Fn(&D) -> Option<bool>>(
    predicate: P,
    pallet: Seq<char>,
    variant: Seq<char>,
    log: Seq<Entry<D>>,
    i: int,
    answer: Option<bool>,
)
    requires
        stops_at(predicate, pallet, variant, log, i, answer),
    ensures
        0 <= i < log.len(),
        log[i].pallet@ == pallet,
        log[i].variant@ == variant,
        predicate.ensures((&log[i].details,), answer),
        forall|j: int|
            0 <= j < i ==> {
                ||| (#[trigger] log[j]).pallet@ != pallet
                ||| log[j].variant@ != variant
                ||| predicate.ensures((&log[j].details,), Some(false))
            },
{
    assert forall|j: int| 0 <= j < i implies {
        ||| (#[trigger] log[j]).pallet@ != pallet
        ||| log[j].variant@ != variant
        ||| predicate.ensures((&log[j].details,), Some(false))
    } by {
        assert(passes_over(predicate, pallet, variant, log[j]));
    }
}

/// Consuming an event goes through the log entry by entry: each one of a later block stays, in its
/// place behind those that stayed before it, and each other one goes.
pub proof fn law_consuming_keeps_order<D>(log: Seq<Entry<D>>, entry: Entry<D>, block: u64)
    ensures
        after_block(Seq::<Entry<D>>::empty(), block) == Seq::<Entry<D>>::empty(),
        entry.block > block ==> after_block(log.push(entry), block) == after_block(log, block).push(
            entry,
        ),
        entry.block <= block ==> after_block(log.push(entry), block) == after_block(log, block),
{
    reveal(Seq::filter);
    assert(log.push(entry).drop_last() =~= log);
    assert(log.push(entry).last() == entry);
}

/// An event is traced as one of the broker's exactly if it is of the broker pallet and has the name.
pub proof fn law_broker_events_go_by_their_names(pallet: Seq<char>, variant: Seq<char>)
    ensures
        BrokerEvent::Purchased.is_event(pallet, variant) <==> pallet == "Broker"@ && variant
            == "Purchased"@,
        BrokerEvent::SaleInitialized.is_event(pallet, variant) <==> pallet == "Broker"@ && variant
            == "SaleInitialized"@,
        BrokerEvent::HistoryInitialized.is_event(pallet, variant) <==> pallet == "Broker"@
            && variant == "HistoryInitialized"@,
        BrokerEvent::CoreAssigned.is_event(pallet, variant) <==> pallet == "Broker"@ && variant
            == "CoreAssigned"@,
        BrokerEvent::Pooled.is_event(pallet, variant) <==> pallet == "Broker"@ && variant
            == "Pooled"@,
        BrokerEvent::ClaimsReady.is_event(pallet, variant) <==> pallet == "Broker"@ && variant
            == "ClaimsReady"@,
        BrokerEvent::RevenueClaimBegun.is_event(pallet, variant) <==> pallet == "Broker"@
            && variant == "RevenueClaimBegun"@,
        BrokerEvent::RevenueClaimItem.is_event(pallet, variant) <==> pallet == "Broker"@ && variant
            == "RevenueClaimItem"@,
        BrokerEvent::RevenueClaimPaid.is_event(pallet, variant) <==> pallet == "Broker"@ && variant
            == "RevenueClaimPaid"@,
{
}

} // verus!
