use matrix_firefly_bot::amount::{append_amount, parse_amount};
use matrix_firefly_bot::transaction::{
    classify_answer, write_ledger_body, FireflyClient, LedgerReply, LedgerRequest, SubmitOutcome,
    Transaction,
};

fn lunch() -> Transaction {
    Transaction {
        amount_cents: 1250,
        description: "lunch".to_string(),
        note: Some("with Alex".to_string()),
        date: Some("2024-03-09".to_string()),
        transaction_type: Some("withdrawal".to_string()),
    }
}

fn read(status: u16, body: &str) -> SubmitOutcome {
    FireflyClient::read_reply(LedgerReply::Answered { status, body: body.to_string() })
}

#[test]
fn request_goes_to_the_transactions_endpoint() {
    let client = FireflyClient::new("https://ledger.example".to_string(), "s3cr3t".to_string());
    let request = client.create_transaction(&lunch());
    assert_eq!(
        request,
        LedgerRequest {
            method: "POST".to_string(),
            url: "https://ledger.example/api/v1/transactions".to_string(),
            authorization: "Bearer s3cr3t".to_string(),
            content_type: "application/json".to_string(),
            accept: "application/json".to_string(),
            body: concat_all(&[
                "{\"transactions\":[{\"amount\":12.50,\"description\":\"lunch\",",
                "\"notes\":\"with Alex\",\"date\":\"2024-03-09\",\"type\":\"withdrawal\",",
                "\"source_name\":\"Cash wallet\",\"tags\":[\"matrix_bot\"]}]}",
            ]),
        }
    );
}

fn concat_all(parts: &[&str]) -> String {
    parts.concat()
}

fn entry_of(body: &str) -> serde_json::Value {
    let document: serde_json::Value = serde_json::from_str(body).unwrap();
    let object = document.as_object().unwrap();
    assert_eq!(object.len(), 1);
    let list = object["transactions"].as_array().unwrap();
    assert_eq!(list.len(), 1);
    list[0].clone()
}

#[test]
fn body_is_the_json_document_of_the_transaction() {
    let entry = entry_of(&write_ledger_body(&lunch()));
    let fields = entry.as_object().unwrap();
    assert_eq!(fields.len(), 7);
    assert_eq!(fields["amount"].as_f64(), Some(12.5));
    assert_eq!(fields["description"].as_str(), Some("lunch"));
    assert_eq!(fields["notes"].as_str(), Some("with Alex"));
    assert_eq!(fields["date"].as_str(), Some("2024-03-09"));
    assert_eq!(fields["type"].as_str(), Some("withdrawal"));
    assert_eq!(fields["source_name"].as_str(), Some("Cash wallet"));
    let tags = fields["tags"].as_array().unwrap();
    assert_eq!(tags.len(), 1);
    assert_eq!(tags[0].as_str(), Some("matrix_bot"));
}

#[test]
fn body_writes_absent_fields_as_null() {
    let bare = Transaction {
        amount_cents: 0,
        description: "x".to_string(),
        note: None,
        date: None,
        transaction_type: None,
    };
    let body = write_ledger_body(&bare);
    assert_eq!(
        body,
        concat_all(&[
            "{\"transactions\":[{\"amount\":0.00,\"description\":\"x\",\"notes\":null,",
            "\"date\":null,\"type\":null,\"source_name\":\"Cash wallet\",",
            "\"tags\":[\"matrix_bot\"]}]}",
        ])
    );
    let entry = entry_of(&body);
    assert!(entry["notes"].is_null());
    assert!(entry["date"].is_null());
    assert!(entry["type"].is_null());
    assert_eq!(entry["amount"].as_f64(), Some(0.0));
}

#[test]
fn body_escapes_what_json_cannot_hold_as_it_is() {
    let odd = Transaction {
        amount_cents: 105,
        description: "say \"cheese\" \\ smile\n\tnow \u{1}".to_string(),
        note: Some("caf\u{e9} \u{1f355} </script>".to_string()),
        date: Some("2024-03-09".to_string()),
        transaction_type: Some("withdrawal".to_string()),
    };
    let entry = entry_of(&write_ledger_body(&odd));
    assert_eq!(entry["description"].as_str(), Some("say \"cheese\" \\ smile\n\tnow \u{1}"));
    assert_eq!(entry["notes"].as_str(), Some("caf\u{e9} \u{1f355} </script>"));
    assert_eq!(entry["amount"].as_f64(), Some(1.05));
}

#[test]
fn amounts_are_written_with_two_decimals() {
    for (cents, text) in [
        (0u64, "0.00"),
        (7, "0.07"),
        (10, "0.10"),
        (99, "0.99"),
        (100, "1.00"),
        (1250, "12.50"),
        (100001, "1000.01"),
        (u64::MAX, "184467440737095516.15"),
    ] {
        let transaction = Transaction { amount_cents: cents, ..lunch() };
        let body = write_ledger_body(&transaction);
        let expected = format!("{{\"transactions\":[{{\"amount\":{},\"description\"", text);
        assert!(body.starts_with(&expected), "{}", body);
    }
}

#[test]
fn amount_that_was_read_is_the_amount_that_is_written() {
    for text in ["0.00", "0.07", "12.50", "7.00", "184467440737095516.15"] {
        let cents = parse_amount(text).unwrap();
        let body = write_ledger_body(&Transaction { amount_cents: cents, ..lunch() });
        assert!(body.contains(&format!("\"amount\":{},", text)), "{}", body);
    }
}

#[test]
fn request_for_an_empty_client_still_has_its_shape() {
    let client = FireflyClient::new(String::new(), String::new());
    let request = client.create_transaction(&lunch());
    assert_eq!(request.method, "POST");
    assert_eq!(request.url, "/api/v1/transactions");
    assert_eq!(request.authorization, "Bearer ");
    assert_eq!(request.body, write_ledger_body(&lunch()));
}

#[test]
fn same_transaction_gives_the_same_request_again() {
    let client = FireflyClient::new("http://localhost:8080".to_string(), "t".to_string());
    assert_eq!(client.create_transaction(&lunch()), client.create_transaction(&lunch()));
}

#[test]
fn success_status_is_accepted() {
    for status in [200u16, 201, 204, 299] {
        let outcome = read(status, "{\"data\":{\"id\":\"7\"}}");
        assert_eq!(outcome, SubmitOutcome::Accepted, "{}", status);
    }
}

#[test]
fn success_status_is_accepted_whatever_the_body() {
    for status in [200u16, 204, 299] {
        for body in ["", "null", "<html>", "{", "{\"a\":1} trailing", "{'a':1}"] {
            assert_eq!(read(status, body), SubmitOutcome::Accepted, "{} {:?}", status, body);
        }
    }
}

#[test]
fn other_status_is_rejected_with_the_body() {
    for status in [0u16, 100, 199, 300, 302, 401, 404, 422, 500, 65535] {
        for body in ["{\"message\":\"The given data was invalid.\"}", "not json", ""] {
            let outcome = read(status, body);
            assert_eq!(
                outcome,
                SubmitOutcome::Rejected { status, body: body.to_string() },
                "{} {:?}",
                status,
                body
            );
        }
    }
}

#[test]
fn unreachable_service_is_a_transport_error() {
    assert_eq!(FireflyClient::read_reply(LedgerReply::Unreachable), SubmitOutcome::TransportError);
}

#[test]
fn answer_is_classified_by_its_status() {
    assert_eq!(classify_answer(200, "x".to_string()), SubmitOutcome::Accepted);
    assert_eq!(classify_answer(299, String::new()), SubmitOutcome::Accepted);
    assert_eq!(
        classify_answer(500, "x".to_string()),
        SubmitOutcome::Rejected { status: 500, body: "x".to_string() }
    );
    assert_eq!(
        classify_answer(199, "y".to_string()),
        SubmitOutcome::Rejected { status: 199, body: "y".to_string() }
    );
    assert_eq!(
        classify_answer(300, String::new()),
        SubmitOutcome::Rejected { status: 300, body: String::new() }
    );
}

#[test]
fn amount_is_appended_to_what_is_there() {
    let mut text = "total: ".to_string();
    append_amount(&mut text, 1234567);
    assert_eq!(text, "total: 12345.67");
    append_amount(&mut text, 5);
    assert_eq!(text, "total: 12345.670.05");
}
