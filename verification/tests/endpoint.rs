use translator_bot::endpoint::{Failure, Outcome};

fn answered(status: u16, body: &str) -> Outcome {
    Outcome::Answered { status, body: body.to_string() }
}

#[test]
fn success_statuses_give_the_body() {
    for status in [200, 201, 204, 250, 299] {
        let outcome = answered(status, "body");
        assert_eq!(outcome.body(), Ok(&"body".to_string()), "status {status}");
    }
}

#[test]
fn other_statuses_give_the_status() {
    for status in [0, 100, 199, 300, 301, 400, 404, 500, 503, u16::MAX] {
        let outcome = answered(status, "body");
        assert_eq!(outcome.body(), Err(Failure::Status(status)), "status {status}");
    }
}

#[test]
fn no_answer_gives_the_reason() {
    let outcome = Outcome::Unreachable { reason: "connection refused".to_string() };
    assert_eq!(outcome.body(), Err(Failure::Unreachable("connection refused".to_string())));
}

#[test]
fn an_empty_body_is_a_body() {
    assert_eq!(answered(200, "").body(), Ok(&String::new()));
}

#[test]
fn failures_are_put_in_words() {
    assert_eq!(
        Failure::Unreachable("connection refused".to_string()).description(),
        "endpoint unreachable: connection refused"
    );
    assert_eq!(Failure::Status(500).description(), "unexpected status 500");
    assert_eq!(Failure::Status(0).description(), "unexpected status 0");
    assert_eq!(Failure::Status(u16::MAX).description(), "unexpected status 65535");
    assert_eq!(
        Failure::Malformed("expected value at line 1 column 1".to_string()).description(),
        "malformed response: expected value at line 1 column 1"
    );
    assert_eq!(Failure::Shape.description(), "unexpected response shape");
}
