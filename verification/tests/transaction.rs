use coretime_revenue::transaction::{
    AbortReason, EventName, HaltReason, TxAction, TxPush, TxReply, TxStatus, HALT_INTERVAL_SECS,
};

fn event(pallet: &str, variant: &str) -> Option<EventName> {
    Some(EventName { pallet: pallet.to_string(), variant: variant.to_string() })
}

fn watching() -> TxPush {
    let (mut push, action) = TxPush::start();
    assert_eq!(action, TxAction::Sign);
    assert_eq!(push.step(&TxReply::Signed(true)), TxAction::Submit);
    assert_eq!(push.step(&TxReply::Submitted(true)), TxAction::NextStatus);
    push
}

fn fetching() -> TxPush {
    let mut push = watching();
    let finalized = TxReply::Status(TxStatus::InFinalizedBlock);
    assert_eq!(push.step(&finalized), TxAction::FetchEvents);
    push
}

#[test]
fn transaction_goes_through() {
    let mut push = watching();
    for status in [
        TxStatus::Validated,
        TxStatus::Broadcasted { num_peers: 3 },
        TxStatus::InBestBlock,
        TxStatus::NoLongerInBestBlock,
        TxStatus::InBestBlock,
    ] {
        assert_eq!(push.step(&TxReply::Status(status)), TxAction::NextStatus);
    }
    let finalized = TxReply::Status(TxStatus::InFinalizedBlock);
    assert_eq!(push.step(&finalized), TxAction::FetchEvents);
    let events = vec![event("Balances", "Withdraw"), event("System", "ExtrinsicSuccess")];
    assert_eq!(push.step(&TxReply::Events(events)), TxAction::Return);
}

#[test]
fn transaction_without_events_goes_through() {
    assert_eq!(fetching().step(&TxReply::Events(vec![])), TxAction::Return);
}

#[test]
fn unsigned_transaction_aborts() {
    let (mut push, _) = TxPush::start();
    let action = push.step(&TxReply::Signed(false));
    assert_eq!(action, TxAction::Abort(AbortReason::NotSigned));
}

#[test]
fn rejected_submission_halts() {
    let (mut push, _) = TxPush::start();
    push.step(&TxReply::Signed(true));
    let action = push.step(&TxReply::Submitted(false));
    assert_eq!(action, TxAction::Halt(HaltReason::NotSubmitted));
    assert_eq!(HALT_INTERVAL_SECS, 3600);
}

#[test]
fn refusals_halt() {
    for status in [
        TxStatus::Error { message: "e".to_string() },
        TxStatus::Invalid { message: "i".to_string() },
        TxStatus::Dropped { message: "d".to_string() },
    ] {
        let action = watching().step(&TxReply::Status(status));
        assert_eq!(action, TxAction::Halt(HaltReason::Refused));
    }
}

#[test]
fn unreadable_status_halts() {
    let action = watching().step(&TxReply::StatusError);
    assert_eq!(action, TxAction::Halt(HaltReason::StatusError));
}

#[test]
fn statuses_that_end_early_abort() {
    let action = watching().step(&TxReply::StatusesEnded);
    assert_eq!(action, TxAction::Abort(AbortReason::NotPushed));
    assert_eq!(AbortReason::NotPushed.message(), "Transaction not pushed");
}

#[test]
fn missing_events_abort() {
    let action = fetching().step(&TxReply::EventsMissing);
    assert_eq!(action, TxAction::Abort(AbortReason::EventsMissing));
}

#[test]
fn failed_extrinsic_halts_once_its_error_is_decoded() {
    let mut push = fetching();
    let events = vec![
        event("Balances", "Withdraw"),
        event("System", "ExtrinsicFailed"),
        None,
    ];
    let action = push.step(&TxReply::Events(events));
    assert_eq!(action, TxAction::DecodeDispatchError { event: 1 });
    let action = push.step(&TxReply::DispatchError { decoded: true });
    assert_eq!(action, TxAction::Halt(HaltReason::ExtrinsicFailed));
}

#[test]
fn undecodable_dispatch_error_aborts() {
    let mut push = fetching();
    push.step(&TxReply::Events(vec![event("System", "ExtrinsicFailed")]));
    let action = push.step(&TxReply::DispatchError { decoded: false });
    assert_eq!(action, TxAction::Abort(AbortReason::DispatchErrorUndecodable));
}

#[test]
fn unreadable_event_aborts_if_it_comes_first() {
    let events = vec![event("A", "B"), None, event("System", "ExtrinsicFailed")];
    let action = fetching().step(&TxReply::Events(events));
    assert_eq!(action, TxAction::Abort(AbortReason::EventUnreadable));
}

#[test]
fn only_the_system_pallet_reports_failure() {
    let events = vec![event("Other", "ExtrinsicFailed"), event("System", "NewAccount")];
    assert_eq!(fetching().step(&TxReply::Events(events)), TxAction::Return);
}

#[test]
fn halted_push_never_returns() {
    let mut push = watching();
    push.step(&TxReply::StatusError);
    for _ in 0..2 {
        let action = push.step(&TxReply::Status(TxStatus::InFinalizedBlock));
        assert_eq!(action, TxAction::Abort(AbortReason::OutOfTurn));
        let action = push.step(&TxReply::Events(vec![]));
        assert_eq!(action, TxAction::Abort(AbortReason::OutOfTurn));
    }
}

#[test]
fn reply_out_of_turn_aborts() {
    let (mut push, _) = TxPush::start();
    let action = push.step(&TxReply::Submitted(true));
    assert_eq!(action, TxAction::Abort(AbortReason::OutOfTurn));
    let action = push.step(&TxReply::Signed(true));
    assert_eq!(action, TxAction::Abort(AbortReason::OutOfTurn));
}

#[test]
fn statuses_have_their_names() {
    let message = String::new;
    assert_eq!(TxStatus::Validated.name(), "Validated");
    assert_eq!(TxStatus::Broadcasted { num_peers: 1 }.name(), "Broadcasted");
    assert_eq!(TxStatus::NoLongerInBestBlock.name(), "NoLongerInBestBlock");
    assert_eq!(TxStatus::InBestBlock.name(), "InBestBlock");
    assert_eq!(TxStatus::InFinalizedBlock.name(), "InFinalizedBlock");
    assert_eq!(TxStatus::Error { message: message() }.name(), "Error");
    assert_eq!(TxStatus::Invalid { message: message() }.name(), "Invalid");
    assert_eq!(TxStatus::Dropped { message: message() }.name(), "Dropped");
}

#[test]
fn abort_reasons_have_their_messages() {
    assert_eq!(AbortReason::NotSigned.message(), "Signed transaction created ok");
    assert_eq!(AbortReason::EventsMissing.message(), "Events fetched successfully");
    assert_eq!(AbortReason::EventUnreadable.message(), "Event details");
    assert_eq!(AbortReason::DispatchErrorUndecodable.message(), "Dispatch error");
    assert_eq!(AbortReason::OutOfTurn.message(), "Reply out of turn");
}
