use translator_bot::config::Config;
use translator_bot::endpoint::Outcome;
use translator_bot::exchange::{
    repeat_message, translate, Command, Exchange, ERROR_PREFIX, FORM_CONTENT_TYPE,
    JSON_CONTENT_TYPE, PLAIN_TEXT_PROMPT,
};

fn config() -> Config {
    Config {
        bot_key: "bot".to_string(),
        translate_url: "http://localhost:5000/translate".to_string(),
        translate_key: "secret".to_string(),
        detect_url: "http://localhost:5000/detect".to_string(),
    }
}

fn answered(status: u16, body: &str) -> Outcome {
    Outcome::Answered { status, body: body.to_string() }
}

fn reply(chat: i64, text: &str) -> (Exchange, Command) {
    (Exchange::Finished, Command::Reply { chat, text: text.to_string() })
}

fn target_of(command: &Command) -> String {
    match command {
        Command::PostJson { body, .. } => {
            let value: serde_json::Value = serde_json::from_str(body).unwrap();
            value.get("target").and_then(|target| target.as_str()).unwrap().to_string()
        }
        other => panic!("no JSON post: {other:?}"),
    }
}

#[test]
fn text_message_is_translated() {
    let config = config();
    let (state, command) = repeat_message(&config, 77, Some("привет"));
    assert_eq!(state, Exchange::Detecting { chat: 77, text: "привет".to_string() });
    assert_eq!(
        command,
        Command::PostForm {
            url: "http://localhost:5000/detect".to_string(),
            fields: vec![
                ("q".to_string(), "привет".to_string()),
                ("api_key".to_string(), "secret".to_string()),
            ],
        }
    );

    let (state, command) = translate(&config, state, &answered(200, r#"[{"language":"ru"}]"#));
    assert_eq!(state, Exchange::Translating { chat: 77 });
    match &command {
        Command::PostJson { url, body } => {
            assert_eq!(url, "http://localhost:5000/translate");
            let value: serde_json::Value = serde_json::from_str(body).unwrap();
            let member = |name: &str| value.get(name).and_then(|v| v.as_str()).map(String::from);
            assert_eq!(member("q"), Some("привет".to_string()));
            assert_eq!(member("source"), Some("auto".to_string()));
            assert_eq!(member("target"), Some("th".to_string()));
            assert_eq!(member("format"), Some("text".to_string()));
            assert_eq!(member("api_key"), Some("secret".to_string()));
            assert_eq!(value.get("alternatives").and_then(|n| n.as_u64()), Some(3));
        }
        other => panic!("no JSON post: {other:?}"),
    }

    let outcome = answered(200, r#"{"translatedText":"สวัสดี"}"#);
    assert_eq!(translate(&config, state, &outcome), reply(77, "สวัสดี"));
}

#[test]
fn text_in_another_language_is_translated_into_russian() {
    let config = config();
    let (state, _) = repeat_message(&config, 1, Some("hello"));
    let (state, command) = translate(&config, state, &answered(200, r#"[{"language":"en"}]"#));
    assert_eq!(target_of(&command), "ru");
    let outcome = answered(200, r#"{"translatedText":"привет"}"#);
    assert_eq!(translate(&config, state, &outcome), reply(1, "привет"));
}

#[test]
fn only_the_first_candidate_decides_the_target() {
    let config = config();
    let (state, _) = repeat_message(&config, 1, Some("hello"));
    let body = r#"[{"language":"en"},{"language":"ru"}]"#;
    let (_, command) = translate(&config, state, &answered(200, body));
    assert_eq!(target_of(&command), "ru");

    let (state, _) = repeat_message(&config, 1, Some("hello"));
    let body = r#"[{"language":"ru"},{"language":"en"}]"#;
    let (_, command) = translate(&config, state, &answered(200, body));
    assert_eq!(target_of(&command), "th");
}

#[test]
fn message_without_text_is_prompted_for_plain_text() {
    let config = config();
    assert_eq!(repeat_message(&config, -100123, None), reply(-100123, "Send me plain text."));
    assert_eq!(PLAIN_TEXT_PROMPT, "Send me plain text.");
}

#[test]
fn message_with_empty_text_is_still_sent_to_detection() {
    let config = config();
    let (state, command) = repeat_message(&config, 3, Some(""));
    assert_eq!(state, Exchange::Detecting { chat: 3, text: String::new() });
    assert!(matches!(command, Command::PostForm { .. }));
}

#[test]
fn failed_detection_is_reported_and_nothing_is_translated() {
    let config = config();
    let (state, _) = repeat_message(&config, 9, Some("hello"));
    let (state, command) = translate(&config, state, &answered(500, "Internal Server Error"));
    assert_eq!(state, Exchange::Finished);
    match &command {
        Command::Reply { chat, text } => {
            assert_eq!(*chat, 9);
            assert!(text.starts_with("Translation error: "));
            assert_eq!(text, "Translation error: language detection: unexpected status 500");
        }
        other => panic!("no reply: {other:?}"),
    }
    let later = answered(200, r#"{"translatedText":"x"}"#);
    assert_eq!(translate(&config, state, &later), (Exchange::Finished, Command::Nothing));
}

#[test]
fn bad_status_counts_even_with_a_good_body() {
    let config = config();
    let (state, _) = repeat_message(&config, 9, Some("hello"));
    for status in [199, 300, 404, 500] {
        let outcome = answered(status, r#"[{"language":"ru"}]"#);
        let (next, command) = translate(&config, state.clone(), &outcome);
        assert_eq!(next, Exchange::Finished);
        assert_eq!(
            command,
            Command::Reply {
                chat: 9,
                text: format!("Translation error: language detection: unexpected status {status}"),
            }
        );
    }
}

#[test]
fn unreachable_detection_is_reported() {
    let config = config();
    let (state, _) = repeat_message(&config, 9, Some("hello"));
    let outcome = Outcome::Unreachable { reason: "connection refused".to_string() };
    assert_eq!(
        translate(&config, state, &outcome),
        reply(
            9,
            "Translation error: language detection: endpoint unreachable: connection refused"
        )
    );
}

#[test]
fn empty_detection_is_reported() {
    let config = config();
    let (state, _) = repeat_message(&config, 9, Some("hello"));
    assert_eq!(
        translate(&config, state, &answered(200, "[]")),
        reply(9, "Translation error: language detection: no language found")
    );
}

#[test]
fn malformed_detection_is_reported() {
    let config = config();
    let (state, _) = repeat_message(&config, 9, Some("hello"));
    assert_eq!(
        translate(&config, state.clone(), &answered(200, "[{}]")),
        reply(9, "Translation error: language detection: unexpected response shape")
    );
    assert_eq!(
        translate(&config, state, &answered(200, "oops")),
        reply(
            9,
            "Translation error: language detection: malformed response: expected value at line 1 column 1"
        )
    );
}

#[test]
fn failed_translation_is_reported() {
    let config = config();
    let state = Exchange::Translating { chat: 4 };
    assert_eq!(
        translate(&config, state.clone(), &answered(502, "Bad Gateway")),
        reply(4, "Translation error: translation: unexpected status 502")
    );
    assert_eq!(
        translate(&config, state.clone(), &answered(200, "{}")),
        reply(4, "Translation error: translation: unexpected response shape")
    );
    let outcome = Outcome::Unreachable { reason: "timed out".to_string() };
    assert_eq!(
        translate(&config, state, &outcome),
        reply(4, "Translation error: translation: endpoint unreachable: timed out")
    );
}

#[test]
fn finished_exchange_asks_for_nothing() {
    let config = config();
    for outcome in [
        answered(200, r#"[{"language":"ru"}]"#),
        answered(200, r#"{"translatedText":"x"}"#),
        answered(500, ""),
        Outcome::Unreachable { reason: String::new() },
    ] {
        assert_eq!(
            translate(&config, Exchange::Finished, &outcome),
            (Exchange::Finished, Command::Nothing)
        );
    }
}

#[test]
fn same_inputs_give_the_same_replies() {
    let config = config();
    let run = |text: Option<&str>, detection: &Outcome, translation: &Outcome| {
        let mut commands = Vec::new();
        let (state, command) = repeat_message(&config, 12, text);
        commands.push(command);
        let (state, command) = translate(&config, state, detection);
        commands.push(command);
        let (state, command) = translate(&config, state, translation);
        commands.push(command);
        assert_eq!(state, Exchange::Finished);
        commands
    };
    let cases = [
        (Some("привет"), answered(200, r#"[{"language":"ru"}]"#), answered(200, r#"{"translatedText":"สวัสดี"}"#)),
        (Some("hello"), answered(200, r#"[{"language":"en"}]"#), answered(500, "")),
        (Some("hello"), answered(500, ""), answered(200, r#"{"translatedText":"x"}"#)),
        (None, answered(200, "[]"), answered(200, "{}")),
    ];
    for (text, detection, translation) in &cases {
        let first = run(*text, detection, translation);
        let second = run(*text, &detection.clone(), &translation.clone());
        assert_eq!(first, second);
        let replies = first.iter().filter(|c| matches!(c, Command::Reply { .. })).count();
        assert_eq!(replies, 1);
    }
}

#[test]
fn error_prefix_and_content_types_are_fixed() {
    assert_eq!(ERROR_PREFIX, "Translation error: ");
    assert_eq!(FORM_CONTENT_TYPE, "application/x-www-form-urlencoded");
    assert_eq!(JSON_CONTENT_TYPE, "application/json");
}
