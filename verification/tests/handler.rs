use matrix_firefly_bot::bot::{
    on_room_message, on_room_message_at, HandlerAction, HandlerEvent, HandlerState, Reaction,
    RoomState,
};
use matrix_firefly_bot::date::CalendarDate;
use matrix_firefly_bot::transaction::{SubmitOutcome, Transaction};

fn day() -> Option<CalendarDate> {
    CalendarDate::new(2025, 1, 31)
}

fn message(text: &str) -> HandlerEvent {
    HandlerEvent::Message { room: RoomState::Joined, text: Some(text.to_string()) }
}

fn rejected() -> SubmitOutcome {
    SubmitOutcome::Rejected { status: 422, body: "{\"message\":\"no\"}".to_string() }
}

#[test]
fn text_without_the_command_word_is_ignored() {
    for text in ["hello", "", "I spend 5 on tea", " spend 5 tea", "spen 5 tea", "s"] {
        let (state, action) = on_room_message_at(HandlerState::Waiting, message(text), day());
        assert_eq!(state, HandlerState::Finished, "{:?}", text);
        assert_eq!(action, HandlerAction::Nothing, "{:?}", text);
    }
}

#[test]
fn ignored_message_stays_ignored() {
    let (state, _) = on_room_message_at(HandlerState::Waiting, message("hello"), day());
    let (state, action) =
        on_room_message_at(state, HandlerEvent::LedgerReplied(SubmitOutcome::Accepted), day());
    assert_eq!((state, action), (HandlerState::Finished, HandlerAction::Nothing));
    let (state, action) = on_room_message_at(state, message("spend 5 tea"), day());
    assert_eq!((state, action), (HandlerState::Finished, HandlerAction::Nothing));
}

#[test]
fn message_in_a_room_not_joined_is_ignored() {
    for room in [RoomState::Left, RoomState::Invited, RoomState::Knocked, RoomState::Banned] {
        let event = HandlerEvent::Message { room, text: Some("spend 5 tea".to_string()) };
        let (state, action) = on_room_message_at(HandlerState::Waiting, event, day());
        assert_eq!((state, action), (HandlerState::Finished, HandlerAction::Nothing));
    }
}

#[test]
fn message_that_is_no_text_is_ignored() {
    let event = HandlerEvent::Message { room: RoomState::Joined, text: None };
    let (state, action) = on_room_message_at(HandlerState::Waiting, event, day());
    assert_eq!((state, action), (HandlerState::Finished, HandlerAction::Nothing));
}

#[test]
fn command_is_submitted() {
    let (state, action) =
        on_room_message_at(HandlerState::Waiting, message("Spend 12.50 groceries"), day());
    assert_eq!(state, HandlerState::Submitting);
    assert_eq!(
        action,
        HandlerAction::Submit(Transaction {
            amount_cents: 1250,
            description: "groceries".to_string(),
            note: None,
            date: Some("2025-01-31".to_string()),
            transaction_type: Some("withdrawal".to_string()),
        })
    );
}

#[test]
fn accepted_submission_gets_the_success_glyph() {
    let (state, action) = on_room_message_at(
        HandlerState::Submitting,
        HandlerEvent::LedgerReplied(SubmitOutcome::Accepted),
        None,
    );
    assert_eq!(state, HandlerState::Reacting);
    assert_eq!(action, HandlerAction::React(Reaction::Success));
    assert_eq!(Reaction::Success.glyph(), "\u{2705}");
}

#[test]
fn rejected_submission_gets_the_failure_glyph() {
    let (state, action) =
        on_room_message_at(HandlerState::Submitting, HandlerEvent::LedgerReplied(rejected()), None);
    assert_eq!(state, HandlerState::Reacting);
    assert_eq!(action, HandlerAction::React(Reaction::Failure));
    assert_eq!(Reaction::Failure.glyph(), "\u{274c}");
}

#[test]
fn unreachable_ledger_gets_the_failure_glyph() {
    let (state, action) = on_room_message_at(
        HandlerState::Submitting,
        HandlerEvent::LedgerReplied(SubmitOutcome::TransportError),
        None,
    );
    assert_eq!(state, HandlerState::Reacting);
    assert_eq!(action, HandlerAction::React(Reaction::Failure));
}

#[test]
fn command_that_does_not_parse_fails_without_the_ledger() {
    for text in ["spend abc lunch", "spend 5 ", "spend", "spending 5 tea", "spend 5 ."] {
        let mut submissions = 0;
        let mut reactions = Vec::new();
        let mut state = HandlerState::Waiting;
        let events = vec![
            message(text),
            HandlerEvent::LedgerReplied(SubmitOutcome::Accepted),
            HandlerEvent::ReactionSent { delivered: true },
            message("spend 1 tea"),
        ];
        for event in events {
            let (next, action) = on_room_message_at(state, event, day());
            state = next;
            match action {
                HandlerAction::Submit(_) => submissions += 1,
                HandlerAction::React(reaction) => reactions.push(reaction),
                HandlerAction::Nothing => {}
            }
        }
        assert_eq!(submissions, 0, "{:?}", text);
        assert_eq!(reactions, vec![Reaction::Failure], "{:?}", text);
        assert_eq!(state, HandlerState::Finished, "{:?}", text);
    }
}

#[test]
fn one_message_gets_one_submission_and_one_reaction() {
    let mut submissions = 0;
    let mut reactions = Vec::new();
    let mut state = HandlerState::Waiting;
    let events = vec![
        HandlerEvent::ReactionSent { delivered: true },
        message("spend 1 tea"),
        message("spend 2 tea"),
        HandlerEvent::LedgerReplied(SubmitOutcome::Accepted),
        HandlerEvent::LedgerReplied(rejected()),
        HandlerEvent::ReactionSent { delivered: false },
        HandlerEvent::ReactionSent { delivered: true },
        message("spend 3 tea"),
        HandlerEvent::LedgerReplied(SubmitOutcome::Accepted),
    ];
    for event in events {
        let (next, action) = on_room_message_at(state, event, day());
        state = next;
        match action {
            HandlerAction::Submit(transaction) => {
                assert_eq!(transaction.amount_cents, 100);
                submissions += 1;
            }
            HandlerAction::React(reaction) => reactions.push(reaction),
            HandlerAction::Nothing => {}
        }
    }
    assert_eq!(submissions, 1);
    assert_eq!(reactions, vec![Reaction::Success]);
    assert_eq!(state, HandlerState::Finished);
}

#[test]
fn undelivered_reaction_ends_the_handling_all_the_same() {
    for delivered in [true, false] {
        let (state, action) = on_room_message_at(
            HandlerState::Reacting,
            HandlerEvent::ReactionSent { delivered },
            None,
        );
        assert_eq!((state, action), (HandlerState::Finished, HandlerAction::Nothing));
    }
}

#[test]
fn event_out_of_turn_changes_nothing() {
    let (state, action) = on_room_message_at(
        HandlerState::Waiting,
        HandlerEvent::LedgerReplied(SubmitOutcome::Accepted),
        day(),
    );
    assert_eq!((state, action), (HandlerState::Waiting, HandlerAction::Nothing));
    let (state, action) =
        on_room_message_at(HandlerState::Submitting, message("spend 5 tea"), day());
    assert_eq!((state, action), (HandlerState::Submitting, HandlerAction::Nothing));
    let (state, action) = on_room_message_at(
        HandlerState::Reacting,
        HandlerEvent::LedgerReplied(SubmitOutcome::Accepted),
        day(),
    );
    assert_eq!((state, action), (HandlerState::Reacting, HandlerAction::Nothing));
}

#[test]
fn clock_without_a_usable_date_fails_the_command() {
    let (state, action) = on_room_message_at(HandlerState::Waiting, message("spend 5 tea"), None);
    assert_eq!(state, HandlerState::Reacting);
    assert_eq!(action, HandlerAction::React(Reaction::Failure));
}

#[test]
fn command_is_dated_by_the_local_clock() {
    let before = chrono::Local::now().date_naive().format("%Y-%m-%d").to_string();
    let (state, action) = on_room_message(HandlerState::Waiting, message("spend 5 on coffee"));
    let after = chrono::Local::now().date_naive().format("%Y-%m-%d").to_string();
    assert_eq!(state, HandlerState::Submitting);
    match action {
        HandlerAction::Submit(transaction) => {
            assert_eq!(transaction.amount_cents, 500);
            assert_eq!(transaction.description, "coffee");
            let date = transaction.date.unwrap();
            assert!(date == before || date == after);
        }
        other => panic!("{:?}", other),
    }
}

#[test]
fn clock_is_not_needed_for_other_events() {
    let (state, action) =
        on_room_message(HandlerState::Submitting, HandlerEvent::LedgerReplied(rejected()));
    assert_eq!((state, action), (HandlerState::Reacting, HandlerAction::React(Reaction::Failure)));
    let (state, action) = on_room_message(HandlerState::Waiting, message("good morning"));
    assert_eq!((state, action), (HandlerState::Finished, HandlerAction::Nothing));
}
