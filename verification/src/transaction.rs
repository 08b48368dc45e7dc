//! Pushing one transaction until it is finalized and known to have succeeded.
//!
//! The program around this crate signs, submits, reads statuses and fetches events, and hands
//! each reply to [`TxPush::step`], which says what to do next.

use vstd::prelude::*;

verus! {

/// What a node says of a submitted transaction.
#[derive(Debug)]
pub enum TxStatus {
    /// It is part of the future queue.
    Validated,
    /// It has been sent to other nodes.
    Broadcasted { num_peers: u32 },
    /// It has left the best block again.
    NoLongerInBestBlock,
    /// It is in the best block.
    InBestBlock,
    /// It is in a finalized block.
    InFinalizedBlock,
    /// Something went wrong in the node.
    Error { message: String },
    /// It is invalid.
    Invalid { message: String },
    /// It was dropped.
    Dropped { message: String },
}

impl TxStatus {
    /// Whether the status means that the transaction will not make it.
    pub open spec fn is_refusal(self) -> bool {
        self is Error || self is Invalid || self is Dropped
    }

    /// Whether the status settles nothing: the next one is to be read.
    pub open spec fn is_ignored(self) -> bool {
        !(self is InFinalizedBlock) && !self.is_refusal()
    }

    /// The name of the status.
    pub open spec fn spec_name(self) -> Seq<char> {
        match self {
            TxStatus::Validated => "Validated"@,
            TxStatus::Broadcasted { .. } => "Broadcasted"@,
            TxStatus::NoLongerInBestBlock => "NoLongerInBestBlock"@,
            TxStatus::InBestBlock => "InBestBlock"@,
            TxStatus::InFinalizedBlock => "InFinalizedBlock"@,
            TxStatus::Error { .. } => "Error"@,
            TxStatus::Invalid { .. } => "Invalid"@,
            TxStatus::Dropped { .. } => "Dropped"@,
        }
    }

    /// The name of the status.
    pub fn name(&self) -> (name: &'static str)
        ensures
            name@ == self.spec_name(),
    {
        match self {
            TxStatus::Validated => "Validated",
            TxStatus::Broadcasted { .. } => "Broadcasted",
            TxStatus::NoLongerInBestBlock => "NoLongerInBestBlock",
            TxStatus::InBestBlock => "InBestBlock",
            TxStatus::InFinalizedBlock => "InFinalizedBlock",
            TxStatus::Error { .. } => "Error",
            TxStatus::Invalid { .. } => "Invalid",
            TxStatus::Dropped { .. } => "Dropped",
        }
    }
}

/// The name of an event that a transaction emitted.
#[derive(Debug)]
pub struct EventName {
    /// Name of the pallet.
    pub pallet: String,
    /// Name of the event within the pallet.
    pub variant: String,
}

impl EventName {
    /// Whether the event says that the transaction failed.
    pub open spec fn spec_is_failure(self) -> bool {
        self.pallet@ == "System"@ && self.variant@ == "ExtrinsicFailed"@
    }

    /// Whether the event says that the transaction failed.
    pub fn is_failure(&self) -> (failure: bool)
        ensures
            failure == self.spec_is_failure(),
    {
        self.pallet == "System".to_owned() && self.variant == "ExtrinsicFailed".to_owned()
    }
}

/// Whether an event keeps a transaction from counting as a success: it says that the transaction
/// failed, or (`None`) it could not be read.
pub open spec fn is_fault(event: Option<EventName>) -> bool {
    match event {
        Some(name) => name.spec_is_failure(),
        None => true,
    }
}

/// The number of events before the first fault; the number of all events where there is none.
pub open spec fn faultless_prefix(events: Seq<Option<EventName>>) -> nat
    decreases events.len(),
{
    if events.len() == 0 || is_fault(events[0]) {
        0
    } else {
        1 + faultless_prefix(events.skip(1))
    }
}

/// A reply to one of the [`TxAction`]s.
#[derive(Debug)]
pub enum TxReply {
    /// Whether the transaction could be built and signed.
    Signed(bool),
    /// Whether the node took the transaction.
    Submitted(bool),
    /// The node reports a status.
    Status(TxStatus),
    /// The status could not be read.
    StatusError,
    /// There are no further statuses.
    StatusesEnded,
    /// The events of the finalized transaction, `None` for one that could not be read.
    Events(Vec<Option<EventName>>),
    /// The events could not be fetched.
    EventsMissing,
    /// Whether the error that a failed transaction carries could be decoded.
    DispatchError { decoded: bool },
}

/// Why a push halts for diagnosis, with the network kept up.
#[derive(Clone, Copy, Debug, PartialEq, Eq, Structural)]
pub enum HaltReason {
    /// The node did not take the transaction.
    NotSubmitted,
    /// The node refused it later on.
    Refused,
    /// A status could not be read.
    StatusError,
    /// It was finalized, and failed.
    ExtrinsicFailed,
}

/// Why a push aborts the program.
#[derive(Clone, Copy, Debug, PartialEq, Eq, Structural)]
pub enum AbortReason {
    /// The transaction could not be built and signed.
    NotSigned,
    /// The events of the finalized transaction could not be fetched.
    EventsMissing,
    /// One of its events could not be read.
    EventUnreadable,
    /// The error of the failed transaction could not be decoded.
    DispatchErrorUndecodable,
    /// The statuses ended and settled nothing.
    NotPushed,
    /// The reply answers another action than the one that was asked for.
    OutOfTurn,
}

impl AbortReason {
    /// What the program says when it aborts.
    pub open spec fn spec_message(self) -> Seq<char> {
        match self {
            AbortReason::NotSigned => "Signed transaction created ok"@,
            AbortReason::EventsMissing => "Events fetched successfully"@,
            AbortReason::EventUnreadable => "Event details"@,
            AbortReason::DispatchErrorUndecodable => "Dispatch error"@,
            AbortReason::NotPushed => "Transaction not pushed"@,
            AbortReason::OutOfTurn => "Reply out of turn"@,
        }
    }

    /// What the program says when it aborts.
    pub fn message(&self) -> (message: &'static str)
        ensures
            message@ == self.spec_message(),
    {
        match self {
            AbortReason::NotSigned => "Signed transaction created ok",
            AbortReason::EventsMissing => "Events fetched successfully",
            AbortReason::EventUnreadable => "Event details",
            AbortReason::DispatchErrorUndecodable => "Dispatch error",
            AbortReason::NotPushed => "Transaction not pushed",
            AbortReason::OutOfTurn => "Reply out of turn",
        }
    }
}

/// What to do next for the transaction.
#[derive(Clone, Copy, Debug, PartialEq, Eq, Structural)]
pub enum TxAction {
    /// Build and sign it.
    Sign,
    /// Submit it and watch its progress.
    Submit,
    /// Read the next status.
    NextStatus,
    /// Fetch the events that it emitted in the finalized block.
    FetchEvents,
    /// Decode the error in the event at this position.
    DecodeDispatchError { event: usize },
    /// Done: hand the events to the caller.
    Return,
    /// Keep the network up and do nothing more.
    Halt(HaltReason),
    /// Abort the program.
    Abort(AbortReason),
}

/// How far a push has come.
#[derive(Clone, Copy, Debug, PartialEq, Eq, Structural)]
pub enum TxStage {
    /// The transaction is being signed.
    Signing,
    /// It is being submitted.
    Submitting,
    /// Its progress is being watched.
    Watching,
    /// Its events are being fetched.
    Fetching,
    /// Its error is being decoded.
    Decoding,
    /// The push is over, and the transaction has succeeded.
    Returned,
    /// The push has halted for diagnosis.
    Halted,
    /// The push has aborted.
    Aborted,
}

impl TxStage {
    /// Whether the push is over.
    pub open spec fn is_over(self) -> bool {
        self is Returned || self is Halted || self is Aborted
    }
}

/// What a status means for a watched transaction.
pub open spec fn on_status(status: TxStatus) -> (TxStage, TxAction) {
    if status is InFinalizedBlock {
        (TxStage::Fetching, TxAction::FetchEvents)
    } else if status.is_refusal() {
        (TxStage::Halted, TxAction::Halt(HaltReason::Refused))
    } else {
        (TxStage::Watching, TxAction::NextStatus)
    }
}

/// What the events of a finalized transaction mean: the first fault decides.
pub open spec fn on_events(events: Seq<Option<EventName>>) -> (TxStage, TxAction) {
    let i = faultless_prefix(events);
    if i == events.len() {
        (TxStage::Returned, TxAction::Return)
    } else if events[i as int] is None {
        (TxStage::Aborted, TxAction::Abort(AbortReason::EventUnreadable))
    } else {
        (TxStage::Decoding, TxAction::DecodeDispatchError { event: i as usize })
    }
}

/// The stage that a reply leads to, and the action to take there.
pub open spec fn on_reply(stage: TxStage, reply: TxReply) -> (TxStage, TxAction) {
    match (stage, reply) {
        (TxStage::Signing, TxReply::Signed(signed)) => if signed {
            (TxStage::Submitting, TxAction::Submit)
        } else {
            (TxStage::Aborted, TxAction::Abort(AbortReason::NotSigned))
        },
        (TxStage::Submitting, TxReply::Submitted(submitted)) => if submitted {
            (TxStage::Watching, TxAction::NextStatus)
        } else {
            (TxStage::Halted, TxAction::Halt(HaltReason::NotSubmitted))
        },
        (TxStage::Watching, TxReply::Status(status)) => on_status(status),
        (TxStage::Watching, TxReply::StatusError) => (
            TxStage::Halted,
            TxAction::Halt(HaltReason::StatusError),
        ),
        (TxStage::Watching, TxReply::StatusesEnded) => (
            TxStage::Aborted,
            TxAction::Abort(AbortReason::NotPushed),
        ),
        (TxStage::Fetching, TxReply::Events(events)) => on_events(events@),
        (TxStage::Fetching, TxReply::EventsMissing) => (
            TxStage::Aborted,
            TxAction::Abort(AbortReason::EventsMissing),
        ),
        (TxStage::Decoding, TxReply::DispatchError { decoded }) => if decoded {
            (TxStage::Halted, TxAction::Halt(HaltReason::ExtrinsicFailed))
        } else {
            (TxStage::Aborted, TxAction::Abort(AbortReason::DispatchErrorUndecodable))
        },
        _ => (
            if stage.is_over() {
                stage
            } else {
                TxStage::Aborted
            },
            TxAction::Abort(AbortReason::OutOfTurn),
        ),
    }
}

/// How long the program sleeps at a time once a push has halted, in seconds.
pub const HALT_INTERVAL_SECS: u64 = 3600;

/// One transaction on its way.
pub struct TxPush {
    stage: TxStage,
}

impl View for TxPush {
    type V = TxStage;

    closed spec fn view(&self) -> TxStage {
        self.stage
    }
}

impl TxPush {
    /// Starts a push.
    pub fn start() -> (started: (TxPush, TxAction))
        ensures
            started.0@ == TxStage::Signing,
            started.1 == TxAction::Sign,
    {
        (TxPush { stage: TxStage::Signing }, TxAction::Sign)
    }

    /// Takes the reply to the last action and says what to do next.
    pub fn step(&mut self, reply: &TxReply) -> (action: TxAction)
        ensures
            (final(self)@, action) == on_reply(old(self)@, *reply),
    {
        let (stage, action) = match (self.stage, reply) {
            (TxStage::Signing, TxReply::Signed(true)) => (TxStage::Submitting, TxAction::Submit),
            (TxStage::Signing, TxReply::Signed(false)) => abort(AbortReason::NotSigned),
            (TxStage::Submitting, TxReply::Submitted(true)) => (
                TxStage::Watching,
                TxAction::NextStatus,
            ),
            (TxStage::Submitting, TxReply::Submitted(false)) => halt(HaltReason::NotSubmitted),
            (TxStage::Watching, TxReply::Status(status)) => match status {
                TxStatus::InFinalizedBlock => (TxStage::Fetching, TxAction::FetchEvents),
                TxStatus::Error { .. } | TxStatus::Invalid { .. } | TxStatus::Dropped { .. } => halt(
                    HaltReason::Refused,
                ),
                _ => (TxStage::Watching, TxAction::NextStatus),
            },
            (TxStage::Watching, TxReply::StatusError) => halt(HaltReason::StatusError),
            (TxStage::Watching, TxReply::StatusesEnded) => abort(AbortReason::NotPushed),
            (TxStage::Fetching, TxReply::Events(events)) => judge_events(events),
            (TxStage::Fetching, TxReply::EventsMissing) => abort(AbortReason::EventsMissing),
            (TxStage::Decoding, TxReply::DispatchError { decoded: true }) => halt(
                HaltReason::ExtrinsicFailed,
            ),
            (TxStage::Decoding, TxReply::DispatchError { decoded: false }) => abort(
                AbortReason::DispatchErrorUndecodable,
            ),
            (TxStage::Returned | TxStage::Halted | TxStage::Aborted, _) => (
                self.stage,
                TxAction::Abort(AbortReason::OutOfTurn),
            ),
            _ => abort(AbortReason::OutOfTurn),
        };
        self.stage = stage;
        action
    }
}

fn halt(reason: HaltReason) -> (next: (TxStage, TxAction))
    ensures
        next == (TxStage::Halted, TxAction::Halt(reason)),
{
    (TxStage::Halted, TxAction::Halt(reason))
}

fn abort(reason: AbortReason) -> (next: (TxStage, TxAction))
    ensures
        next == (TxStage::Aborted, TxAction::Abort(reason)),
{
    (TxStage::Aborted, TxAction::Abort(reason))
}

/// Goes through the events of a finalized transaction up to the first fault.
fn judge_events(events: &Vec<Option<EventName>>) -> (next: (TxStage, TxAction))
    ensures
        next == on_events(events@),
{
    assert(events@.skip(0) =~= events@);
    let mut i: usize = 0;
    while i < events.len()
        invariant
            i <= events@.len(),
            faultless_prefix(events@) == i + faultless_prefix(events@.skip(i as int)),
        decreases events@.len() - i,
    {
        assert(events@.skip(i as int)[0] == events@[i as int]);
        assert(events@.skip(i as int).skip(1) =~= events@.skip(i + 1));
        match &events[i] {
            None => {
                return abort(AbortReason::EventUnreadable);
            },
            Some(name) => {
                if name.is_failure() {
                    return (TxStage::Decoding, TxAction::DecodeDispatchError { event: i });
                }
            },
        }
        i += 1;
    }
    (TxStage::Returned, TxAction::Return)
}

/// The stage after a sequence of replies.
pub open spec fn stage_after(stage: TxStage, replies: Seq<TxReply>) -> TxStage
    decreases replies.len(),
{
    if replies.len() == 0 {
        stage
    } else {
        on_reply(stage_after(stage, replies.drop_last()), replies.last()).0
    }
}

/// Whether a reply is a status that settles nothing.
pub open spec fn is_idle(reply: TxReply) -> bool {
    reply matches TxReply::Status(status) && status.is_ignored()
}

/// Whether a reply brings the events of a transaction, and all of them are in order.
pub open spec fn is_clean(reply: TxReply) -> bool {
    reply matches TxReply::Events(events) && forall|i: int|
        0 <= i < events@.len() ==> !is_fault(#[trigger] events@[i])
}

/// Whether these replies are those of a transaction that goes through: it is signed, taken by the
/// node, seen in a finalized block after any number of statuses that settle nothing, and none of
/// its events is a fault.
pub open spec fn goes_through(replies: Seq<TxReply>) -> bool {
    let n = replies.len() as int;
    &&& n >= 4
    &&& replies[0] == TxReply::Signed(true)
    &&& replies[1] == TxReply::Submitted(true)
    &&& forall|i: int| 2 <= i < n - 2 ==> is_idle(#[trigger] replies[i])
    &&& replies[n - 2] == TxReply::Status(TxStatus::InFinalizedBlock)
    &&& is_clean(replies[n - 1])
}

/// The faultless prefix of a list of events ends at the first fault, or at the end of the list.
pub proof fn law_first_fault_decides(events: Seq<Option<EventName>>)
    ensures
        faultless_prefix(events) <= events.len(),
        faultless_prefix(events) < events.len() ==> is_fault(
            events[faultless_prefix(events) as int],
        ),
        forall|i: int| 0 <= i < faultless_prefix(events) ==> !is_fault(#[trigger] events[i]),
    decreases events.len(),
{
    if events.len() > 0 && !is_fault(events[0]) {
        let rest = events.skip(1);
        law_first_fault_decides(rest);
        let n = faultless_prefix(rest) as int;
        if n < rest.len() {
            assert(rest[n] == events[n + 1]);
        }
        assert forall|i: int| 0 <= i < 1 + n implies !is_fault(#[trigger] events[i]) by {
            if i > 0 {
                assert(rest[i - 1] == events[i]);
            }
        }
    }
}

/// A push that is over stays over, whatever comes: in particular one that has halted never returns
/// to its caller.
pub proof fn law_over_is_final(stage: TxStage, replies: Seq<TxReply>)
    requires
        stage.is_over(),
    ensures
        stage_after(stage, replies) == stage,
    decreases replies.len(),
{
    if replies.len() > 0 {
        law_over_is_final(stage, replies.drop_last());
    }
}

/// Statuses that settle nothing do not matter to a watched transaction.
pub proof fn law_idle_statuses_do_not_matter(idle: Seq<TxReply>)
    requires
        forall|i: int| 0 <= i < idle.len() ==> is_idle(#[trigger] idle[i]),
    ensures
        stage_after(TxStage::Watching, idle) == TxStage::Watching,
    decreases idle.len(),
{
    if idle.len() > 0 {
        assert(is_idle(idle[idle.len() - 1]));
        assert forall|i: int| 0 <= i < idle.drop_last().len() implies is_idle(
            #[trigger] idle.drop_last()[i],
        ) by {
            assert(idle[i] == idle.drop_last()[i]);
        }
        law_idle_statuses_do_not_matter(idle.drop_last());
    }
}

/// Where a push that is not over stands tells which replies it has had.
proof fn lemma_replies_by_stage(replies: Seq<TxReply>)
    ensures
        ({
            let n = replies.len() as int;
            match stage_after(TxStage::Signing, replies) {
                TxStage::Signing => n == 0,
                TxStage::Submitting => n == 1 && replies[0] == TxReply::Signed(true),
                TxStage::Watching => {
                    &&& n >= 2
                    &&& replies[0] == TxReply::Signed(true)
                    &&& replies[1] == TxReply::Submitted(true)
                    &&& forall|i: int| 2 <= i < n ==> is_idle(#[trigger] replies[i])
                },
                TxStage::Fetching => {
                    &&& n >= 3
                    &&& replies[0] == TxReply::Signed(true)
                    &&& replies[1] == TxReply::Submitted(true)
                    &&& forall|i: int| 2 <= i < n - 1 ==> is_idle(#[trigger] replies[i])
                    &&& replies[n - 1] == TxReply::Status(TxStatus::InFinalizedBlock)
                },
                _ => true,
            }
        }),
    decreases replies.len(),
{
    if replies.len() > 0 {
        lemma_replies_by_stage(replies.drop_last());
        assert forall|i: int| 0 <= i < replies.len() - 1 implies replies.drop_last()[i]
            == #[trigger] replies[i] by {}
    }
}

/// A push returns to its caller upon exactly those replies that a transaction gives which goes
/// through.
pub proof fn law_push_returns_iff_transaction_goes_through(replies: Seq<TxReply>)
    ensures
        goes_through(replies) ==> stage_after(TxStage::Signing, replies) == TxStage::Returned,
        replies.len() > 0 && stage_after(TxStage::Signing, replies) == TxStage::Returned
            && stage_after(TxStage::Signing, replies.drop_last()) != TxStage::Returned
            ==> goes_through(replies),
{
    let n = replies.len() as int;
    if goes_through(replies) {
        lemma_stages_of_passing_transaction(replies, n - 2);
        let init = replies.drop_last();
        assert(init.drop_last() =~= replies.take(n - 2));
        assert(init.last() == replies[n - 2]);
        let events = replies.last()->Events_0@;
        law_first_fault_decides(events);
    }
    if n > 0 && stage_after(TxStage::Signing, replies) == TxStage::Returned && stage_after(
        TxStage::Signing,
        replies.drop_last(),
    ) != TxStage::Returned {
        let init = replies.drop_last();
        lemma_replies_by_stage(init);
        assert(stage_after(TxStage::Signing, init) == TxStage::Fetching);
        let events = replies.last()->Events_0@;
        law_first_fault_decides(events);
        assert forall|i: int| 2 <= i < n - 2 implies is_idle(#[trigger] replies[i]) by {
            assert(init[i] == replies[i]);
        }
        assert(init[0] == replies[0]);
        assert(init[1] == replies[1]);
        assert(init[n - 2] == replies[n - 2]);
    }
}

/// A transaction that goes through is watched until it is finalized.
proof fn lemma_stages_of_passing_transaction(replies: Seq<TxReply>, k: int)
    requires
        goes_through(replies),
        2 <= k <= replies.len() - 2,
    ensures
        stage_after(TxStage::Signing, replies.take(k)) == TxStage::Watching,
    decreases k,
{
    let prefix = replies.take(k);
    if k == 2 {
        assert(prefix.drop_last() =~= replies.take(1));
        assert(replies.take(1).drop_last() =~= replies.take(0));
        reveal_with_fuel(stage_after, 3);
    } else {
        lemma_stages_of_passing_transaction(replies, k - 1);
        assert(prefix.drop_last() =~= replies.take(k - 1));
        assert(is_idle(replies[k - 1]));
    }
}

/// The kind of a status decides what becomes of a watched transaction. Its events are fetched exactly
/// if it is in a finalized block. It is refused exactly by an error, by being invalid and by being
/// dropped, whatever the message. Any other status lets the watch go on, to however many peers the
/// transaction was sent.
pub proof fn law_status_settles_by_its_kind(status: TxStatus)
    ensures
        ({
            let (stage, action) = on_reply(TxStage::Watching, TxReply::Status(status));
            &&& stage is Fetching <==> status is InFinalizedBlock
            &&& action is FetchEvents <==> status is InFinalizedBlock
            &&& stage is Halted <==> status is Error || status is Invalid || status is Dropped
            &&& action == TxAction::Halt(HaltReason::Refused) <==> status is Error
                || status is Invalid || status is Dropped
            &&& stage is Watching <==> status is Validated || status is Broadcasted
                || status is NoLongerInBestBlock || status is InBestBlock
            &&& action is NextStatus <==> status is Validated || status is Broadcasted
                || status is NoLongerInBestBlock || status is InBestBlock
        }),
{
}

/// To how many peers a transaction was sent makes no difference to its push, at any stage.
pub proof fn law_number_of_peers_does_not_matter(stage: TxStage, a: u32, b: u32)
    ensures
        on_reply(stage, TxReply::Status(TxStatus::Broadcasted { num_peers: a })) == on_reply(
            stage,
            TxReply::Status(TxStatus::Broadcasted { num_peers: b }),
        ),
{
}

/// What a refusal says makes no difference to a push, at any stage.
pub proof fn law_message_of_refusal_does_not_matter(stage: TxStage, a: String, b: String)
    ensures
        on_reply(stage, TxReply::Status(TxStatus::Error { message: a })) == on_reply(
            stage,
            TxReply::Status(TxStatus::Error { message: b }),
        ),
        on_reply(stage, TxReply::Status(TxStatus::Invalid { message: a })) == on_reply(
            stage,
            TxReply::Status(TxStatus::Error { message: b }),
        ),
        on_reply(stage, TxReply::Status(TxStatus::Dropped { message: a })) == on_reply(
            stage,
            TxReply::Status(TxStatus::Error { message: b }),
        ),
{
}

/// A finalized transaction has succeeded exactly if every one of its events could be read and none
/// of them is `System::ExtrinsicFailed`.
pub proof fn law_transaction_succeeds_iff_no_event_says_otherwise(events: Vec<Option<EventName>>)
    ensures
        ({
            let (stage, action) = on_reply(TxStage::Fetching, TxReply::Events(events));
            let fine = forall|i: int|
                0 <= i < events@.len() ==> {
                    &&& #[trigger] events@[i] matches Some(name)
                    &&& name.pallet@ != "System"@ || name.variant@ != "ExtrinsicFailed"@
                };
            &&& stage is Returned <==> fine
            &&& action is Return <==> fine
        }),
{
    law_first_fault_decides(events@);
    let n = faultless_prefix(events@) as int;
    assert(forall|i: int|
        0 <= i < events@.len() ==> (!is_fault(#[trigger] events@[i]) <==> {
            &&& events@[i] matches Some(name)
            &&& name.pallet@ != "System"@ || name.variant@ != "ExtrinsicFailed"@
        }));
    if n < events@.len() {
        assert(is_fault(events@[n]));
    }
}

/// The first event that could not be read or is `System::ExtrinsicFailed` decides: the former ends
/// the push, the latter has its error decoded, and what comes after does not matter.
pub proof fn law_first_event_at_fault_decides(events: Vec<Option<EventName>>, k: int)
    requires
        0 <= k < events@.len(),
        forall|i: int|
            0 <= i < k ==> {
                &&& #[trigger] events@[i] matches Some(name)
                &&& name.pallet@ != "System"@ || name.variant@ != "ExtrinsicFailed"@
            },
    ensures
        ({
            let (stage, action) = on_reply(TxStage::Fetching, TxReply::Events(events));
            &&& events@[k] is None ==> {
                &&& stage is Aborted
                &&& action == TxAction::Abort(AbortReason::EventUnreadable)
            }
            &&& (events@[k] matches Some(name) && name.pallet@ == "System"@ && name.variant@
                == "ExtrinsicFailed"@) ==> {
                &&& stage is Decoding
                &&& action matches TxAction::DecodeDispatchError { event }
                &&& event == k
            }
        }),
{
    law_first_fault_decides(events@);
    let n = faultless_prefix(events@) as int;
    assert(events.len() == events@.len());
    if n < k {
        assert(is_fault(events@[n]));
        assert(events@[n] is Some);
    }
    if k < n {
        assert(!is_fault(events@[k]));
    }
}

/// Every action but one that follows from events has one cause: a stage, and a reply to what was
/// asked for there.
pub proof fn law_each_action_has_its_cause(stage: TxStage, reply: TxReply)
    ensures
        ({
            let action = on_reply(stage, reply).1;
            &&& !(action is Sign)
            &&& action is Submit <==> stage is Signing && reply == TxReply::Signed(true)
            &&& action is NextStatus <==> {
                ||| stage is Submitting && reply == TxReply::Submitted(true)
                ||| stage is Watching && (reply matches TxReply::Status(status) && (status
                    is Validated || status is Broadcasted || status is NoLongerInBestBlock
                    || status is InBestBlock))
            }
            &&& action is FetchEvents <==> stage is Watching && reply == TxReply::Status(
                TxStatus::InFinalizedBlock,
            )
            &&& action is Return || action is DecodeDispatchError ==> stage is Fetching && reply
                is Events
            &&& action == TxAction::Halt(HaltReason::NotSubmitted) <==> stage is Submitting && reply
                == TxReply::Submitted(false)
            &&& action == TxAction::Halt(HaltReason::Refused) <==> stage is Watching && (
            reply matches TxReply::Status(status) && (status is Error || status is Invalid || status
                is Dropped))
            &&& action == TxAction::Halt(HaltReason::StatusError) <==> stage is Watching && reply
                is StatusError
            &&& action == TxAction::Halt(HaltReason::ExtrinsicFailed) <==> stage is Decoding && reply
                == (TxReply::DispatchError { decoded: true })
        }),
{
}

/// Every abort but one that follows from events has one cause. In particular a reply is out of turn
/// exactly if it does not answer what was asked for, and any reply is once the push is over.
pub proof fn law_each_abort_has_its_cause(stage: TxStage, reply: TxReply)
    ensures
        ({
            let action = on_reply(stage, reply).1;
            &&& action == TxAction::Abort(AbortReason::NotSigned) <==> stage is Signing && reply
                == TxReply::Signed(false)
            &&& action == TxAction::Abort(AbortReason::NotPushed) <==> stage is Watching && reply
                is StatusesEnded
            &&& action == TxAction::Abort(AbortReason::EventsMissing) <==> stage is Fetching && reply
                is EventsMissing
            &&& action == TxAction::Abort(AbortReason::EventUnreadable) ==> stage is Fetching
                && reply is Events
            &&& action == TxAction::Abort(AbortReason::DispatchErrorUndecodable) <==> stage
                is Decoding && reply == (TxReply::DispatchError { decoded: false })
            &&& action == TxAction::Abort(AbortReason::OutOfTurn) <==> {
                &&& !(stage is Signing && reply is Signed)
                &&& !(stage is Submitting && reply is Submitted)
                &&& !(stage is Watching && (reply is Status || reply is StatusError || reply
                    is StatusesEnded))
                &&& !(stage is Fetching && (reply is Events || reply is EventsMissing))
                &&& !(stage is Decoding && reply is DispatchError)
            }
        }),
{
}

/// Where a push stands tells what it was last told to do, unless it was over before: then it stands
/// where it stood.
pub proof fn law_stage_matches_action(stage: TxStage, reply: TxReply)
    ensures
        ({
            let (next, action) = on_reply(stage, reply);
            let over = stage is Returned || stage is Halted || stage is Aborted;
            &&& over ==> next == stage && action == TxAction::Abort(AbortReason::OutOfTurn)
            &&& !over ==> {
                &&& !(next is Signing)
                &&& next is Submitting <==> action is Submit
                &&& next is Watching <==> action is NextStatus
                &&& next is Fetching <==> action is FetchEvents
                &&& next is Decoding <==> action is DecodeDispatchError
                &&& next is Returned <==> action is Return
                &&& next is Halted <==> action is Halt
                &&& next is Aborted <==> action is Abort
            }
        }),
{
}

/// The name of a status is that of its kind, whatever the status carries.
pub proof fn law_status_is_named_by_its_kind(num_peers: u32, message: String)
    ensures
        (TxStatus::Broadcasted { num_peers }).spec_name() == "Broadcasted"@,
        (TxStatus::Error { message }).spec_name() == "Error"@,
        (TxStatus::Invalid { message }).spec_name() == "Invalid"@,
        (TxStatus::Dropped { message }).spec_name() == "Dropped"@,
{
}

/// An event says that the transaction failed exactly if it is `System::ExtrinsicFailed`.
pub proof fn law_only_extrinsic_failed_says_so(name: EventName)
    ensures
        name.spec_is_failure() <==> name.pallet@ == "System"@ && name.variant@
            == "ExtrinsicFailed"@,
{
}

} // verus!
