//! The spend command and the handler that answers one room message.
//!
//! The handler is a state machine. The caller feeds it what happened (a
//! message arrived, the ledger replied, the reaction went out) and performs
//! the action that comes back: nothing, one submission, or one reaction.

use crate::date::{has_iso_date_form, lemma_iso_text_has_date_form, CalendarDate};
use crate::text::{
    chars_of, has_prefix_ignoring_ascii_case, lemma_trimmed_is_trimmed,
    starts_with_ignoring_ascii_case, trim, trimmed,
};
use crate::amount::{amount_cents_u64, parse_amount};
use crate::transaction::{SubmitOutcome, SubmitOutcomeView, Transaction, TransactionView};
use vstd::prelude::*;
use vstd::string::{StrSliceExecFns, StringExecFns};

verus! {

/// The spend command as a regular expression: the command word, the amount
/// (first group), the description (second group, as short as the rest
/// allows) and, after the word `note` with or without a colon, the note
/// (third group). The two words are taken in any case.
pub const SPEND_PATTERN: &'static str =
    "^[Ss][Pp][Ee][Nn][Dd]\\s+(\\d+(?:\\.\\d{1,2})?)\\s+(.+?)(?:\\s+[Nn][Oo][Tt][Ee]:?\\s+(.+))?$";

/// What the `regex` crate captures in `haystack` with `pattern`: `None` where
/// the pattern does not compile or matches nowhere, else the text of each
/// group from group 0 on, `None` for a group that took no part in the match.
pub uninterp spec fn regex_captures(pattern: Seq<char>, haystack: Seq<char>) -> Option<
    Seq<Option<Seq<char>>>,
>;

/// `regex::Regex::new(pattern)`, then `Regex::captures(haystack)` on the
/// compiled expression, each group of `Captures::iter` copied out with
/// `Match::as_str`. Both calls read their arguments alone, so the result is a
/// function of the two texts; nothing more is claimed of it.
#[verifier::external_body]
fn captures(pattern: &str, haystack: &str) -> (groups: Option<Vec<Option<String>>>)
    ensures
        groups.deep_view() == regex_captures(pattern@, haystack@),
{
    let regex = regex::Regex::new(pattern).ok()?;
    let found = regex.captures(haystack)?;
    Some(found.iter().map(|group| group.map(|m| m.as_str().to_string())).collect())
}

/// The text of group `i`, `None` where there is no such group or it took no
/// part in the match.
pub open spec fn group_text(groups: Seq<Option<Seq<char>>>, i: int) -> Option<Seq<char>> {
    if 0 <= i < groups.len() {
        groups[i]
    } else {
        None
    }
}

/// `description` without a leading `on ` or `for `.
pub open spec fn without_filler(description: Seq<char>) -> Seq<char> {
    if starts_with_ignoring_ascii_case(description, "on "@) {
        description.skip(3)
    } else if starts_with_ignoring_ascii_case(description, "for "@) {
        description.skip(4)
    } else {
        description
    }
}

/// Whether `c` is a mark that closes a sentence.
pub open spec fn is_sentence_end(c: char) -> bool {
    c == '.' || c == '!' || c == '?'
}

/// `description` without one closing `.`, `!` or `?`.
pub open spec fn without_sentence_end(description: Seq<char>) -> Seq<char> {
    if description.len() > 0 && is_sentence_end(description.last()) {
        description.drop_last()
    } else {
        description
    }
}

/// The description as a transaction carries it: first the filler word goes,
/// then the closing punctuation, then the whitespace that is left around
/// what remains.
pub open spec fn normalized_description(description: Seq<char>) -> Seq<char> {
    trimmed(without_sentence_end(without_filler(description)))
}

/// The transaction that the capture groups of a spend command give on the
/// day `today`: none where the amount or the description is missing, where
/// the amount is no amount in cents, or where nothing is left of the
/// description.
pub open spec fn transaction_of_captures(
    groups: Seq<Option<Seq<char>>>,
    today: CalendarDate,
) -> Option<TransactionView> {
    let amount = group_text(groups, 1);
    let description = group_text(groups, 2);
    if groups.len() < 2 || amount is None || description is None {
        None
    } else if normalized_description(description->0).len() == 0 {
        None
    } else if amount_cents_u64(amount->0) is None {
        None
    } else {
        Some(
            TransactionView {
                amount_cents: amount_cents_u64(amount->0)->0 as nat,
                description: normalized_description(description->0),
                note: group_text(groups, 3),
                date: Some(today.iso_text()),
                transaction_type: Some("withdrawal"@),
            },
        )
    }
}

/// The transaction that `message` asks for on the day `today`, if it is a
/// spend command.
pub open spec fn spend_transaction(message: Seq<char>, today: CalendarDate) -> Option<
    TransactionView,
> {
    match regex_captures(SPEND_PATTERN@, trimmed(message)) {
        Some(groups) => transaction_of_captures(groups, today),
        None => None,
    }
}

/// A transaction that comes of capture groups has a description, with no
/// whitespace around it.
pub proof fn lemma_transaction_of_captures_is_well_formed(
    groups: Seq<Option<Seq<char>>>,
    today: CalendarDate,
)
    ensures
        transaction_of_captures(groups, today) matches Some(transaction)
            ==> transaction.well_formed(),
{
    if transaction_of_captures(groups, today) is Some {
        let description = group_text(groups, 2)->0;
        lemma_trimmed_is_trimmed(without_sentence_end(without_filler(description)));
    }
}

fn group<'a>(groups: &'a Vec<Option<String>>, i: usize) -> (text: Option<&'a String>)
    ensures
        text.deep_view() == group_text(groups.deep_view(), i as int),
{
    if i < groups.len() {
        groups[i].as_ref()
    } else {
        None
    }
}

/// Strips the filler word, the closing punctuation and what whitespace is
/// left around the rest from a description.
pub fn normalize_description(description: &str) -> (normal: String)
    ensures
        normal@ == normalized_description(description@),
{
    proof {
        reveal_strlit("on ");
        reveal_strlit("for ");
    }
    let chars = chars_of(description);
    let n: usize = chars.len();
    let start: usize = if has_prefix_ignoring_ascii_case(description, "on ") {
        3
    } else if has_prefix_ignoring_ascii_case(description, "for ") {
        4
    } else {
        0
    };
    let end: usize = if n > start && (chars[n - 1] == '.' || chars[n - 1] == '!' || chars[n - 1]
        == '?') {
        n - 1
    } else {
        n
    };
    proof {
        let stripped = description@.skip(start as int);
        assert(stripped == without_filler(description@)) by {
            assert(description@.skip(0) =~= description@);
        }
        if n > start {
            assert(stripped.last() == description@[n - 1]);
        }
        assert(without_sentence_end(stripped) =~= description@.subrange(start as int, end as int));
    }
    String::from_str(trim(description.substring_char(start, end)))
}

/// Builds the transaction from the capture groups of a spend command.
pub fn transaction_from_captures(groups: &Vec<Option<String>>, today: &CalendarDate) -> (transaction:
    Option<Transaction>)
    ensures
        transaction.deep_view() == transaction_of_captures(groups.deep_view(), *today),
        transaction matches Some(t) ==> t@.well_formed(),
{
    proof {
        lemma_transaction_of_captures_is_well_formed(groups.deep_view(), *today);
    }
    if groups.len() < 2 {
        return None;
    }
    let amount_text = match group(groups, 1) {
        Some(text) => text,
        None => { return None; },
    };
    let description = match group(groups, 2) {
        Some(text) => normalize_description(text.as_str()),
        None => { return None; },
    };
    if description.as_str().unicode_len() == 0 {
        return None;
    }
    let note = match group(groups, 3) {
        Some(text) => Some(text.clone()),
        None => None,
    };
    let amount_cents = match parse_amount(amount_text.as_str()) {
        Some(cents) => cents,
        None => { return None; },
    };
    Some(
        Transaction {
            amount_cents,
            description,
            note,
            date: Some(today.to_iso_string()),
            transaction_type: Some(String::from_str("withdrawal")),
        },
    )
}

/// Reads a spend command: `spend <amount> <description>`, then at most
/// `note <note>`. The transaction is dated `today`.
pub fn parse_spend_message(message: &str, today: &CalendarDate) -> (transaction: Option<
    Transaction,
>)
    ensures
        transaction.deep_view() == spend_transaction(message@, *today),
        transaction matches Some(t) ==> t@.well_formed(),
{
    match captures(SPEND_PATTERN, trim(message)) {
        Some(groups) => transaction_from_captures(&groups, today),
        None => None,
    }
}

/// The acknowledgement that a handled message gets.
#[derive(Clone, Copy, Debug, PartialEq, Eq, Structural)]
pub enum Reaction {
    Success,
    Failure,
}

/// The glyph of each reaction: a check mark for success, a cross for
/// failure.
pub open spec fn reaction_glyph(reaction: Reaction) -> Seq<char> {
    match reaction {
        Reaction::Success => "✅"@,
        Reaction::Failure => "❌"@,
    }
}

impl Reaction {
    /// The glyph that the reaction is sent as.
    pub fn glyph(&self) -> (glyph: &'static str)
        ensures
            glyph@ == reaction_glyph(*self),
    {
        match self {
            Reaction::Success => "✅",
            Reaction::Failure => "❌",
        }
    }
}

/// The bot's standing in the room that a message came from.
#[derive(Clone, Copy, Debug, PartialEq, Eq, Structural)]
pub enum RoomState {
    Joined,
    Left,
    Invited,
    Knocked,
    Banned,
}

/// Where the handling of one message stands.
#[derive(Clone, Copy, Debug, PartialEq, Eq, Structural)]
pub enum HandlerState {
    /// Nothing has been looked at yet.
    Waiting,
    /// A transaction went to the ledger; its reply is awaited.
    Submitting,
    /// The reaction was handed out; word of its delivery is awaited.
    Reacting,
    /// Nothing more will be done for this message.
    Finished,
}

/// What the caller reports to the handler.
#[derive(Clone, Debug, PartialEq, Eq)]
pub enum HandlerEvent {
    /// A message arrived in a room where the bot stands as `room` says.
    /// `text` is the body of a plain-text message and `None` for any other
    /// kind.
    Message { room: RoomState, text: Option<String> },
    /// The submission that the handler asked for ended.
    LedgerReplied(SubmitOutcome),
    /// The reaction that the handler asked for was sent, or could not be.
    ReactionSent { delivered: bool },
}

/// What a [`HandlerEvent`] holds, as plain mathematics.
pub enum HandlerEventView {
    Message { room: RoomState, text: Option<Seq<char>> },
    LedgerReplied(SubmitOutcomeView),
    ReactionSent { delivered: bool },
}

impl View for HandlerEvent {
    type V = HandlerEventView;

    open spec fn view(&self) -> HandlerEventView {
        match self {
            HandlerEvent::Message { room, text } => HandlerEventView::Message {
                room: *room,
                text: text.deep_view(),
            },
            HandlerEvent::LedgerReplied(outcome) => HandlerEventView::LedgerReplied(outcome@),
            HandlerEvent::ReactionSent { delivered } => HandlerEventView::ReactionSent {
                delivered: *delivered,
            },
        }
    }
}

/// What the caller is to do next.
#[derive(Clone, Debug, PartialEq, Eq)]
pub enum HandlerAction {
    Nothing,
    /// Submit the transaction to the ledger, once, and report the outcome.
    Submit(Transaction),
    /// Send the reaction on the message, once, and report whether it went
    /// out.
    React(Reaction),
}

/// What a [`HandlerAction`] holds, as plain mathematics.
pub enum HandlerActionView {
    Nothing,
    Submit(TransactionView),
    React(Reaction),
}

impl View for HandlerAction {
    type V = HandlerActionView;

    open spec fn view(&self) -> HandlerActionView {
        match self {
            HandlerAction::Nothing => HandlerActionView::Nothing,
            HandlerAction::Submit(transaction) => HandlerActionView::Submit(transaction@),
            HandlerAction::React(reaction) => HandlerActionView::React(*reaction),
        }
    }
}

/// Whether `text` begins with the command word, in any case.
pub open spec fn starts_with_spend(text: Seq<char>) -> bool {
    starts_with_ignoring_ascii_case(text, "spend"@)
}

/// The transaction that `text` asks for when the clock gave `today`. A clock
/// that gave no date of the years 0 to 9999 leaves no transaction.
pub open spec fn spend_transaction_at(text: Seq<char>, today: Option<CalendarDate>) -> Option<
    TransactionView,
> {
    match today {
        Some(date) => spend_transaction(text, date),
        None => None,
    }
}

/// The reaction that answers an outcome of the ledger.
pub open spec fn reaction_to(outcome: SubmitOutcomeView) -> Reaction {
    if outcome is Accepted {
        Reaction::Success
    } else {
        Reaction::Failure
    }
}

/// One step of the handler: the state after `event` and the action that the
/// caller performs. An event that the state does not wait for changes
/// nothing.
pub open spec fn handler_step(
    state: HandlerState,
    event: HandlerEventView,
    today: Option<CalendarDate>,
) -> (HandlerState, HandlerActionView) {
    match (state, event) {
        (HandlerState::Waiting, HandlerEventView::Message { room, text }) => {
            if room != RoomState::Joined || text is None || !starts_with_spend(text->0) {
                (HandlerState::Finished, HandlerActionView::Nothing)
            } else {
                match spend_transaction_at(text->0, today) {
                    Some(transaction) => (
                        HandlerState::Submitting,
                        HandlerActionView::Submit(transaction),
                    ),
                    None => (HandlerState::Reacting, HandlerActionView::React(Reaction::Failure)),
                }
            }
        },
        (HandlerState::Submitting, HandlerEventView::LedgerReplied(outcome)) => (
            HandlerState::Reacting,
            HandlerActionView::React(reaction_to(outcome)),
        ),
        (HandlerState::Reacting, HandlerEventView::ReactionSent { delivered }) => (
            HandlerState::Finished,
            HandlerActionView::Nothing,
        ),
        _ => (state, HandlerActionView::Nothing),
    }
}

/// One step of the handler with the date that the clock gave.
pub fn on_room_message_at(
    state: HandlerState,
    event: HandlerEvent,
    today: Option<CalendarDate>,
) -> (next: (HandlerState, HandlerAction))
    ensures
        (next.0, next.1@) == handler_step(state, event@, today),
{
    match state {
        HandlerState::Waiting => match event {
            HandlerEvent::Message { room, text } => {
                let text = match text {
                    Some(text) => text,
                    None => { return (HandlerState::Finished, HandlerAction::Nothing); },
                };
                if room != RoomState::Joined || !has_prefix_ignoring_ascii_case(
                    text.as_str(),
                    "spend",
                ) {
                    return (HandlerState::Finished, HandlerAction::Nothing);
                }
                let parsed = match today {
                    Some(date) => parse_spend_message(text.as_str(), &date),
                    None => None,
                };
                match parsed {
                    Some(transaction) => (
                        HandlerState::Submitting,
                        HandlerAction::Submit(transaction),
                    ),
                    None => (HandlerState::Reacting, HandlerAction::React(Reaction::Failure)),
                }
            },
            _ => (state, HandlerAction::Nothing),
        },
        HandlerState::Submitting => match event {
            HandlerEvent::LedgerReplied(outcome) => {
                let reaction = match outcome {
                    SubmitOutcome::Accepted => Reaction::Success,
                    _ => Reaction::Failure,
                };
                (HandlerState::Reacting, HandlerAction::React(reaction))
            },
            _ => (state, HandlerAction::Nothing),
        },
        HandlerState::Reacting => match event {
            HandlerEvent::ReactionSent { delivered } => (
                HandlerState::Finished,
                HandlerAction::Nothing,
            ),
            _ => (state, HandlerAction::Nothing),
        },
        HandlerState::Finished => (state, HandlerAction::Nothing),
    }
}

/// Whether `event` brings a command: a text that begins with the command
/// word, in a joined room, while the handler is still waiting.
pub open spec fn brings_command(state: HandlerState, event: HandlerEventView) -> bool {
    &&& state == HandlerState::Waiting
    &&& event matches HandlerEventView::Message { room, text }
    &&& room == RoomState::Joined
    &&& text matches Some(text)
    &&& starts_with_spend(text)
}

fn is_command(state: HandlerState, event: &HandlerEvent) -> (yes: bool)
    ensures
        yes == brings_command(state, event@),
{
    match event {
        HandlerEvent::Message { room, text } => match text {
            Some(text) => state == HandlerState::Waiting && *room == RoomState::Joined
                && has_prefix_ignoring_ascii_case(text.as_str(), "spend"),
            None => false,
        },
        _ => false,
    }
}

/// One step of the handler. A command is dated by the local clock, which is
/// read for nothing else; whatever the clock gives, the step is the one
/// that [`handler_step`] describes for it.
pub fn on_room_message(state: HandlerState, event: HandlerEvent) -> (next: (
    HandlerState,
    HandlerAction,
))
    ensures
        exists|today: Option<CalendarDate>|
            (today matches Some(date) ==> date.well_formed()) && (next.0, next.1@) == handler_step(
                state,
                event@,
                today,
            ),
        !brings_command(state, event@) ==> (next.0, next.1@) == handler_step(state, event@, None),
{
    let today = if is_command(state, &event) {
        CalendarDate::today()
    } else {
        None
    };
    on_room_message_at(state, event, today)
}

/// One report to the handler together with what the clock gave at that
/// moment.
pub struct HandlerInput {
    pub event: HandlerEventView,
    pub today: Option<CalendarDate>,
}

/// How many submissions the handler asks for when it starts in `state` and
/// is fed `inputs` in order.
pub open spec fn submissions_in_run(state: HandlerState, inputs: Seq<HandlerInput>) -> nat
    decreases inputs.len(),
{
    if inputs.len() == 0 {
        0
    } else {
        let (next, action) = handler_step(state, inputs[0].event, inputs[0].today);
        let here: nat = if action is Submit {
            1
        } else {
            0
        };
        here + submissions_in_run(next, inputs.drop_first())
    }
}

/// How many reactions the handler asks for when it starts in `state` and is
/// fed `inputs` in order.
pub open spec fn reactions_in_run(state: HandlerState, inputs: Seq<HandlerInput>) -> nat
    decreases inputs.len(),
{
    if inputs.len() == 0 {
        0
    } else {
        let (next, action) = handler_step(state, inputs[0].event, inputs[0].today);
        let here: nat = if action is React {
            1
        } else {
            0
        };
        here + reactions_in_run(next, inputs.drop_first())
    }
}

/// From any state the handler asks for a submission only while it is still
/// waiting, and for a reaction only before one was handed out.
pub proof fn lemma_run_bounds(state: HandlerState, inputs: Seq<HandlerInput>)
    ensures
        submissions_in_run(state, inputs) <= 1,
        reactions_in_run(state, inputs) <= 1,
        state != HandlerState::Waiting ==> submissions_in_run(state, inputs) == 0,
        state == HandlerState::Reacting || state == HandlerState::Finished ==> reactions_in_run(
            state,
            inputs,
        ) == 0,
    decreases inputs.len(),
{
    if inputs.len() > 0 {
        let (next, action) = handler_step(state, inputs[0].event, inputs[0].today);
        lemma_run_bounds(next, inputs.drop_first());
    }
}

/// Whatever is reported for one message and in whatever order, the handler
/// asks for at most one submission and at most one reaction.
pub proof fn lemma_at_most_one_submission_and_one_reaction(inputs: Seq<HandlerInput>)
    ensures
        submissions_in_run(HandlerState::Waiting, inputs) <= 1,
        reactions_in_run(HandlerState::Waiting, inputs) <= 1,
{
    lemma_run_bounds(HandlerState::Waiting, inputs);
}

/// A message that does not begin with the command word is ignored, whatever
/// room it came from: the handler finishes at once, and whatever is reported
/// afterwards, it asks for no submission and no reaction.
pub proof fn lemma_other_text_is_ignored(
    room: RoomState,
    text: Seq<char>,
    today: Option<CalendarDate>,
    later: Seq<HandlerInput>,
)
    requires
        !starts_with_spend(text),
    ensures
        handler_step(
            HandlerState::Waiting,
            HandlerEventView::Message { room, text: Some(text) },
            today,
        ) == (HandlerState::Finished, HandlerActionView::Nothing),
        submissions_in_run(
            HandlerState::Waiting,
            seq![HandlerInput { event: HandlerEventView::Message { room, text: Some(text) }, today }]
                + later,
        ) == 0,
        reactions_in_run(
            HandlerState::Waiting,
            seq![HandlerInput { event: HandlerEventView::Message { room, text: Some(text) }, today }]
                + later,
        ) == 0,
{
    let first = HandlerInput { event: HandlerEventView::Message { room, text: Some(text) }, today };
    let inputs = seq![first] + later;
    assert(inputs[0] == first);
    assert(inputs.drop_first() =~= later);
    lemma_run_bounds(HandlerState::Finished, later);
}

/// The reaction follows the ledger: the success glyph where it accepted, the
/// failure glyph where it rejected or could not be reached.
pub proof fn lemma_reaction_follows_ledger(outcome: SubmitOutcomeView, today: Option<CalendarDate>)
    ensures
        handler_step(HandlerState::Submitting, HandlerEventView::LedgerReplied(outcome), today) == (
            HandlerState::Reacting,
            HandlerActionView::React(reaction_to(outcome)),
        ),
        outcome is Accepted ==> reaction_glyph(reaction_to(outcome)) == "✅"@,
        !(outcome is Accepted) ==> reaction_glyph(reaction_to(outcome)) == "❌"@,
{
}

/// A command that does not parse gets the failure reaction, and whatever is
/// reported afterwards, the ledger is never asked.
pub proof fn lemma_parse_failure_never_submits(
    text: Seq<char>,
    today: Option<CalendarDate>,
    later: Seq<HandlerInput>,
)
    requires
        starts_with_spend(text),
        spend_transaction_at(text, today) is None,
    ensures
        handler_step(
            HandlerState::Waiting,
            HandlerEventView::Message { room: RoomState::Joined, text: Some(text) },
            today,
        ) == (HandlerState::Reacting, HandlerActionView::React(Reaction::Failure)),
        submissions_in_run(
            HandlerState::Waiting,
            seq![
                HandlerInput {
                    event: HandlerEventView::Message { room: RoomState::Joined, text: Some(text) },
                    today,
                },
            ] + later,
        ) == 0,
        reactions_in_run(
            HandlerState::Waiting,
            seq![
                HandlerInput {
                    event: HandlerEventView::Message { room: RoomState::Joined, text: Some(text) },
                    today,
                },
            ] + later,
        ) == 1,
{
    let first = HandlerInput {
        event: HandlerEventView::Message { room: RoomState::Joined, text: Some(text) },
        today,
    };
    let inputs = seq![first] + later;
    assert(inputs[0] == first);
    assert(inputs.drop_first() =~= later);
    lemma_run_bounds(HandlerState::Reacting, later);
}

/// A command that parses is submitted once and, when the ledger has replied,
/// gets exactly one reaction, whatever is reported afterwards.
pub proof fn lemma_submitted_command_gets_one_reaction(
    text: Seq<char>,
    today: Option<CalendarDate>,
    outcome: SubmitOutcomeView,
    later: Seq<HandlerInput>,
)
    requires
        starts_with_spend(text),
        spend_transaction_at(text, today) is Some,
    ensures
        submissions_in_run(
            HandlerState::Waiting,
            seq![
                HandlerInput {
                    event: HandlerEventView::Message { room: RoomState::Joined, text: Some(text) },
                    today,
                },
                HandlerInput { event: HandlerEventView::LedgerReplied(outcome), today: None },
            ] + later,
        ) == 1,
        reactions_in_run(
            HandlerState::Waiting,
            seq![
                HandlerInput {
                    event: HandlerEventView::Message { room: RoomState::Joined, text: Some(text) },
                    today,
                },
                HandlerInput { event: HandlerEventView::LedgerReplied(outcome), today: None },
            ] + later,
        ) == 1,
{
    let first = HandlerInput {
        event: HandlerEventView::Message { room: RoomState::Joined, text: Some(text) },
        today,
    };
    let second = HandlerInput { event: HandlerEventView::LedgerReplied(outcome), today: None };
    let inputs = seq![first, second] + later;
    let rest = inputs.drop_first();
    assert(inputs[0] == first);
    assert(rest[0] == second);
    assert(rest.drop_first() =~= later);
    lemma_run_bounds(HandlerState::Reacting, later);
    assert(submissions_in_run(HandlerState::Submitting, rest) == 0);
    assert(reactions_in_run(HandlerState::Submitting, rest) == 1);
}

/// A transaction that comes of a command is complete: it has a description,
/// it is a withdrawal, and its date is the day's, written `YYYY-MM-DD`.
pub proof fn lemma_parsed_transaction_is_complete(message: Seq<char>, today: CalendarDate)
    requires
        today.well_formed(),
    ensures
        spend_transaction(message, today) matches Some(transaction) ==> transaction.well_formed()
            && transaction.amount_cents <= u64::MAX && transaction.transaction_type == Some(
            "withdrawal"@,
        ) && transaction.date == Some(today.iso_text()) && has_iso_date_form(today.iso_text()),
{
    lemma_iso_text_has_date_form(today.year(), today.month(), today.day());
    let found = regex_captures(SPEND_PATTERN@, trimmed(message));
    if found is Some {
        lemma_transaction_of_captures_is_well_formed(found->0, today);
    }
}

/// Parsing is a function of the text and the date: on two days the same
/// text gives a transaction both times or neither time, and the two differ
/// in nothing but the date, which is the day's.
pub proof fn lemma_parse_differs_by_date_only(
    message: Seq<char>,
    first_day: CalendarDate,
    second_day: CalendarDate,
)
    ensures
        spend_transaction(message, first_day) is Some <==> spend_transaction(message, second_day)
            is Some,
        spend_transaction(message, first_day) matches Some(first) ==> first.date == Some(
            first_day.iso_text(),
        ) && spend_transaction(message, second_day) == Some(
            TransactionView { date: Some(second_day.iso_text()), ..first },
        ),
        first_day == second_day ==> spend_transaction(message, first_day) == spend_transaction(
            message,
            second_day,
        ),
{
}

} // verus!
