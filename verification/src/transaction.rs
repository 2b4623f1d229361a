//! Transactions and the ledger client that frames the request for one
//! transaction and reads the service's reply.

use crate::amount::{amount_text, append_amount};
use crate::text::trimmed;
use vstd::prelude::*;
use vstd::string::StringExecFns;

verus! {

/// One withdrawal to book.
#[derive(Clone, Debug, PartialEq, Eq)]
pub struct Transaction {
    /// The amount in cents.
    pub amount_cents: u64,
    pub description: String,
    pub note: Option<String>,
    pub date: Option<String>,
    pub transaction_type: Option<String>,
}

/// What a [`Transaction`] holds, as plain mathematics.
pub struct TransactionView {
    pub amount_cents: nat,
    pub description: Seq<char>,
    pub note: Option<Seq<char>>,
    pub date: Option<Seq<char>>,
    pub transaction_type: Option<Seq<char>>,
}

impl TransactionView {
    /// Whether the transaction says what was bought: a transaction that
    /// comes of a command has a description, with no whitespace around it.
    pub open spec fn well_formed(self) -> bool {
        &&& self.description.len() > 0
        &&& trimmed(self.description) == self.description
    }
}

impl View for Transaction {
    type V = TransactionView;

    open spec fn view(&self) -> TransactionView {
        TransactionView {
            amount_cents: self.amount_cents as nat,
            description: self.description@,
            note: self.note.deep_view(),
            date: self.date.deep_view(),
            transaction_type: self.transaction_type.deep_view(),
        }
    }
}

impl DeepView for Transaction {
    type V = TransactionView;

    open spec fn deep_view(&self) -> TransactionView {
        self@
    }
}

/// One request to the ledger service: where it goes, the three headers, and
/// the JSON document that is its body.
#[derive(Clone, Debug, PartialEq, Eq)]
pub struct LedgerRequest {
    pub method: String,
    pub url: String,
    pub authorization: String,
    pub content_type: String,
    pub accept: String,
    pub body: String,
}

/// What a [`LedgerRequest`] holds, as plain mathematics.
pub struct LedgerRequestView {
    pub method: Seq<char>,
    pub url: Seq<char>,
    pub authorization: Seq<char>,
    pub content_type: Seq<char>,
    pub accept: Seq<char>,
    pub body: Seq<char>,
}

impl View for LedgerRequest {
    type V = LedgerRequestView;

    open spec fn view(&self) -> LedgerRequestView {
        LedgerRequestView {
            method: self.method@,
            url: self.url@,
            authorization: self.authorization@,
            content_type: self.content_type@,
            accept: self.accept@,
            body: self.body@,
        }
    }
}

/// What came of sending a request.
#[derive(Clone, Debug, PartialEq, Eq)]
pub enum LedgerReply {
    /// The service answered.
    Answered { status: u16, body: String },
    /// No answer came: the service was not reached, or not in time, or what
    /// it sent could not be read.
    Unreachable,
}

/// What a [`LedgerReply`] holds, as plain mathematics.
pub enum LedgerReplyView {
    Answered { status: u16, body: Seq<char> },
    Unreachable,
}

impl View for LedgerReply {
    type V = LedgerReplyView;

    open spec fn view(&self) -> LedgerReplyView {
        match self {
            LedgerReply::Answered { status, body } => LedgerReplyView::Answered {
                status: *status,
                body: body@,
            },
            LedgerReply::Unreachable => LedgerReplyView::Unreachable,
        }
    }
}

/// How a submission ended.
#[derive(Clone, Debug, PartialEq, Eq)]
pub enum SubmitOutcome {
    /// The service answered with a status from 200 to 299.
    Accepted,
    /// The service answered with another status.
    Rejected { status: u16, body: String },
    /// No answer came back, or none that could be read.
    TransportError,
}

/// What a [`SubmitOutcome`] holds, as plain mathematics.
pub enum SubmitOutcomeView {
    Accepted,
    Rejected { status: u16, body: Seq<char> },
    TransportError,
}

impl View for SubmitOutcome {
    type V = SubmitOutcomeView;

    open spec fn view(&self) -> SubmitOutcomeView {
        match self {
            SubmitOutcome::Accepted => SubmitOutcomeView::Accepted,
            SubmitOutcome::Rejected { status, body } => SubmitOutcomeView::Rejected {
                status: *status,
                body: body@,
            },
            SubmitOutcome::TransportError => SubmitOutcomeView::TransportError,
        }
    }
}

/// The JSON string literal that `serde_json` writes for `text`.
pub uninterp spec fn json_string(text: Seq<char>) -> Seq<char>;

/// The JSON value of a text that may be absent: its string literal, or
/// `null`.
pub open spec fn json_optional_string(text: Option<Seq<char>>) -> Seq<char> {
    match text {
        Some(text) => json_string(text),
        None => "null"@,
    }
}

/// The JSON document that books `transaction`: a list of one entry with the
/// transaction's fields, the account that pays and the tag of this bot.
pub open spec fn ledger_body(transaction: TransactionView) -> Seq<char> {
    "{\"transactions\":[{\"amount\":"@ + amount_text(transaction.amount_cents)
        + ",\"description\":"@ + json_string(transaction.description) + ",\"notes\":"@
        + json_optional_string(transaction.note) + ",\"date\":"@ + json_optional_string(
        transaction.date,
    ) + ",\"type\":"@ + json_optional_string(transaction.transaction_type)
        + ",\"source_name\":\"Cash wallet\",\"tags\":[\"matrix_bot\"]}]}"@
}

/// The request that submits `transaction` to the service under `base_url`.
pub open spec fn ledger_request(
    base_url: Seq<char>,
    token: Seq<char>,
    transaction: TransactionView,
) -> LedgerRequestView {
    LedgerRequestView {
        method: "POST"@,
        url: base_url + "/api/v1/transactions"@,
        authorization: "Bearer "@ + token,
        content_type: "application/json"@,
        accept: "application/json"@,
        body: ledger_body(transaction),
    }
}

/// Whether `status` is one of the HTTP statuses of success.
pub open spec fn is_success_status(status: u16) -> bool {
    200 <= status <= 299
}

/// What an answer with this status and body means: accepted on a status
/// from 200 to 299, whatever the body, and rejected with the body on every
/// other status.
pub open spec fn answer_outcome(status: u16, body: Seq<char>) -> SubmitOutcomeView {
    if is_success_status(status) {
        SubmitOutcomeView::Accepted
    } else {
        SubmitOutcomeView::Rejected { status, body }
    }
}

/// How the submission ended that `reply` came of.
pub open spec fn submit_outcome(reply: LedgerReplyView) -> SubmitOutcomeView {
    match reply {
        LedgerReplyView::Answered { status, body } => answer_outcome(status, body),
        LedgerReplyView::Unreachable => SubmitOutcomeView::TransportError,
    }
}

/// `serde_json::Value::String(text).to_string()`: the JSON string literal of
/// `text`, quoted and escaped. The writer reads nothing but its argument,
/// so the literal is a function of the text.
#[verifier::external_body]
fn to_json_string(text: &str) -> (literal: String)
    ensures
        literal@ == json_string(text@),
{
    serde_json::Value::String(text.to_owned()).to_string()
}

fn append_json_string(text: &mut String, value: &str)
    ensures
        final(text)@ == old(text)@ + json_string(value@),
{
    let literal = to_json_string(value);
    text.append(literal.as_str());
}

fn append_json_optional_string(text: &mut String, value: &Option<String>)
    ensures
        final(text)@ == old(text)@ + json_optional_string(value.deep_view()),
{
    match value {
        Some(value) => append_json_string(text, value.as_str()),
        None => text.append("null"),
    }
}

/// Writes the JSON document that books `transaction`.
pub fn write_ledger_body(transaction: &Transaction) -> (body: String)
    ensures
        body@ == ledger_body(transaction@),
{
    let mut body = String::from_str("{\"transactions\":[{\"amount\":");
    append_amount(&mut body, transaction.amount_cents);
    body.append(",\"description\":");
    append_json_string(&mut body, transaction.description.as_str());
    body.append(",\"notes\":");
    append_json_optional_string(&mut body, &transaction.note);
    body.append(",\"date\":");
    append_json_optional_string(&mut body, &transaction.date);
    body.append(",\"type\":");
    append_json_optional_string(&mut body, &transaction.transaction_type);
    body.append(",\"source_name\":\"Cash wallet\",\"tags\":[\"matrix_bot\"]}]}");
    body
}

/// Reads an answer of the service by its status.
pub fn classify_answer(status: u16, body: String) -> (outcome: SubmitOutcome)
    ensures
        outcome@ == answer_outcome(status, body@),
{
    if 200 <= status && status <= 299 {
        SubmitOutcome::Accepted
    } else {
        SubmitOutcome::Rejected { status, body }
    }
}

/// Client of one Firefly III instance.
#[derive(Clone, Debug)]
pub struct FireflyClient {
    firefly_base_url: String,
    firefly_token: String,
}

impl FireflyClient {
    /// Base URL that requests are sent under.
    pub closed spec fn base_url(&self) -> Seq<char> {
        self.firefly_base_url@
    }

    /// Bearer token that requests carry.
    pub closed spec fn token(&self) -> Seq<char> {
        self.firefly_token@
    }

    /// A client for the service under `firefly_base_url` that signs its
    /// requests with `firefly_token`.
    pub fn new(firefly_base_url: String, firefly_token: String) -> (client: Self)
        ensures
            client.base_url() == firefly_base_url@,
            client.token() == firefly_token@,
    {
        Self { firefly_base_url, firefly_token }
    }

    /// Frames the one request that submits `transaction`. Sending it, once
    /// and without retry, is the caller's part; what comes of that goes to
    /// [`FireflyClient::read_reply`].
    pub fn create_transaction(&self, transaction: &Transaction) -> (request: LedgerRequest)
        ensures
            request@ == ledger_request(self.base_url(), self.token(), transaction@),
    {
        let mut url = self.firefly_base_url.clone();
        url.append("/api/v1/transactions");
        let mut authorization = String::from_str("Bearer ");
        authorization.append(self.firefly_token.as_str());
        LedgerRequest {
            method: String::from_str("POST"),
            url,
            authorization,
            content_type: String::from_str("application/json"),
            accept: String::from_str("application/json"),
            body: write_ledger_body(transaction),
        }
    }

    /// Says how the submission ended, from what came of sending the
    /// request.
    pub fn read_reply(reply: LedgerReply) -> (outcome: SubmitOutcome)
        ensures
            outcome@ == submit_outcome(reply@),
    {
        match reply {
            LedgerReply::Answered { status, body } => classify_answer(status, body),
            LedgerReply::Unreachable => SubmitOutcome::TransportError,
        }
    }
}

} // verus!
