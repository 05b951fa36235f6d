//! The handling of one message: a detection call, then a translation call,
//! then a reply.
//!
//! The library makes no call itself. It hands out a [`Command`] that says
//! what to do, and takes back what came of it as an
//! [`Outcome`](crate::endpoint::Outcome). Between the two it keeps what it
//! needs in an [`Exchange`].

use vstd::prelude::*;
use vstd::string::*;
use crate::config::{Config, ConfigView};
use crate::detect::{
    bad_status_fails_detection,
    detect_form,
    detected_language,
    read_detection,
    DetectRequest,
};
use crate::endpoint::{is_success, Outcome, OutcomeView};
use crate::text::{begins_with, prefixed_begins_with};
use crate::translation::{
    read_translation,
    translated_text,
    translation_body,
    TranslationErrorView,
    TranslationRequest,
};

verus! {

/// The reply to a message that carries no text.
pub const PLAIN_TEXT_PROMPT: &'static str = "Send me plain text.";

/// What every reply that reports an error begins with.
pub const ERROR_PREFIX: &'static str = "Translation error: ";

/// The content type of a form post.
pub const FORM_CONTENT_TYPE: &'static str = "application/x-www-form-urlencoded";

/// The content type of a JSON post.
pub const JSON_CONTENT_TYPE: &'static str = "application/json";

/// How far the handling of one message has come.
#[derive(Debug, Clone, PartialEq, Eq)]
pub enum Exchange {
    /// The detection endpoint was asked for the language of `text`.
    Detecting { chat: i64, text: String },
    /// The translation endpoint was asked for the translation.
    Translating { chat: i64 },
    /// The reply was given: nothing is left to do.
    Finished,
}

/// What is to be done next.
#[derive(Debug, Clone, PartialEq, Eq)]
pub enum Command {
    /// Post `fields` to `url` as a form, with the content type
    /// [`FORM_CONTENT_TYPE`], and hand back what comes of it.
    PostForm { url: String, fields: Vec<(String, String)> },
    /// Post `body` to `url`, with the content type [`JSON_CONTENT_TYPE`], and
    /// hand back what comes of it.
    PostJson { url: String, body: String },
    /// Send `text` to the chat `chat`.
    Reply { chat: i64, text: String },
    /// Nothing.
    Nothing,
}

/// The mathematical value of an [`Exchange`].
pub enum ExchangeView {
    Detecting { chat: i64, text: Seq<char> },
    Translating { chat: i64 },
    Finished,
}

/// The mathematical value of a [`Command`].
pub enum CommandView {
    PostForm { url: Seq<char>, fields: Seq<(Seq<char>, Seq<char>)> },
    PostJson { url: Seq<char>, body: Seq<char> },
    Reply { chat: i64, text: Seq<char> },
    Nothing,
}

impl View for Exchange {
    type V = ExchangeView;

    open spec fn view(&self) -> ExchangeView {
        match self {
            Exchange::Detecting { chat, text } => ExchangeView::Detecting {
                chat: *chat,
                text: text@,
            },
            Exchange::Translating { chat } => ExchangeView::Translating { chat: *chat },
            Exchange::Finished => ExchangeView::Finished,
        }
    }
}

impl View for Command {
    type V = CommandView;

    open spec fn view(&self) -> CommandView {
        match self {
            Command::PostForm { url, fields } => CommandView::PostForm {
                url: url@,
                fields: fields.deep_view(),
            },
            Command::PostJson { url, body } => CommandView::PostJson { url: url@, body: body@ },
            Command::Reply { chat, text } => CommandView::Reply { chat: *chat, text: text@ },
            Command::Nothing => CommandView::Nothing,
        }
    }
}

/// The reply that reports an error described by `description`.
pub open spec fn error_text(description: Seq<char>) -> Seq<char> {
    ERROR_PREFIX@ + description
}

/// The end of an exchange with the reply `text` to the chat `chat`.
pub open spec fn finish(chat: i64, text: Seq<char>) -> (ExchangeView, CommandView) {
    (ExchangeView::Finished, CommandView::Reply { chat, text })
}

/// What a message sets off. One without text is answered at once with the
/// prompt for plain text. For one with text the detection endpoint is asked
/// for its language.
pub open spec fn on_message(config: ConfigView, chat: i64, text: Option<Seq<char>>) -> (
    ExchangeView,
    CommandView,
) {
    match text {
        None => finish(chat, PLAIN_TEXT_PROMPT@),
        Some(text) => (
            ExchangeView::Detecting { chat, text },
            CommandView::PostForm {
                url: config.detect_url,
                fields: detect_form(text, config.translate_key),
            },
        ),
    }
}

/// What the outcome of the detection call sets off. A failure is reported to
/// the chat and ends the exchange. A language has the translation endpoint
/// asked for the translation of `text`.
pub open spec fn after_detection(
    config: ConfigView,
    chat: i64,
    text: Seq<char>,
    outcome: OutcomeView,
) -> (ExchangeView, CommandView) {
    match detected_language(outcome) {
        Err(error) => finish(chat, error_text(error.description())),
        Ok(language) => match translation_body(text, language, config.translate_key) {
            Err(error) => finish(chat, error_text(error.description())),
            Ok(body) => (
                ExchangeView::Translating { chat },
                CommandView::PostJson { url: config.translate_url, body },
            ),
        },
    }
}

/// What the outcome of the translation call sets off: the translated text
/// goes to the chat, or the report of the failure.
pub open spec fn after_translation(chat: i64, outcome: OutcomeView) -> (
    ExchangeView,
    CommandView,
) {
    match translated_text(outcome) {
        Err(error) => finish(chat, error_text(error.description())),
        Ok(text) => finish(chat, text),
    }
}

/// The next step of an exchange, given what came of the call that the last
/// command asked for. A finished exchange stays finished and asks for
/// nothing.
pub open spec fn next_step(config: ConfigView, state: ExchangeView, outcome: OutcomeView) -> (
    ExchangeView,
    CommandView,
) {
    match state {
        ExchangeView::Detecting { chat, text } => after_detection(config, chat, text, outcome),
        ExchangeView::Translating { chat } => after_translation(chat, outcome),
        ExchangeView::Finished => (ExchangeView::Finished, CommandView::Nothing),
    }
}

/// The reply that a message gets in the end, given what the two endpoints
/// answer. Where no translation call comes about, `translation` plays no
/// part.
pub open spec fn reply_to(
    config: ConfigView,
    text: Option<Seq<char>>,
    detection: OutcomeView,
    translation: OutcomeView,
) -> Seq<char> {
    match text {
        None => PLAIN_TEXT_PROMPT@,
        Some(text) => match detected_language(detection) {
            Err(error) => error_text(error.description()),
            Ok(language) => match translation_body(text, language, config.translate_key) {
                Err(error) => error_text(error.description()),
                Ok(_) => match translated_text(translation) {
                    Err(error) => error_text(error.description()),
                    Ok(translated) => translated,
                },
            },
        },
    }
}

/// Ends an exchange with a reply that reports an error.
fn report(chat: i64, description: String) -> (r: (Exchange, Command))
    ensures
        (r.0@, r.1@) == finish(chat, error_text(description@)),
{
    let mut text = String::from_str(ERROR_PREFIX);
    text.append(description.as_str());
    (Exchange::Finished, Command::Reply { chat, text })
}

/// Begins the handling of a message that arrived in the chat `chat`.
pub fn repeat_message(config: &Config, chat: i64, text: Option<&str>) -> (r: (Exchange, Command))
    ensures
        (r.0@, r.1@) == on_message(
            config@,
            chat,
            match text {
                Some(text) => Some(text@),
                None => None,
            },
        ),
        text is None ==> r.0@ == ExchangeView::Finished && r.1@ == (CommandView::Reply {
            chat,
            text: "Send me plain text."@,
        }),
{
    match text {
        None => (
            Exchange::Finished,
            Command::Reply { chat, text: String::from_str(PLAIN_TEXT_PROMPT) },
        ),
        Some(text) => {
            let request = DetectRequest::new(text, config.translate_key.as_str());
            (
                Exchange::Detecting { chat, text: String::from_str(text) },
                Command::PostForm { url: config.detect_url.clone(), fields: request.form_fields() },
            )
        },
    }
}

/// Takes the translation of a message one step on, given what came of the
/// call that the last command asked for.
pub fn translate(config: &Config, state: Exchange, outcome: &Outcome) -> (r: (Exchange, Command))
    ensures
        (r.0@, r.1@) == next_step(config@, state@, outcome@),
{
    match state {
        Exchange::Detecting { chat, text } => match read_detection(outcome) {
            Err(error) => report(chat, error.description()),
            Ok(language) => {
                let request = TranslationRequest::new(
                    text.as_str(),
                    language.as_str(),
                    config.translate_key.as_str(),
                );
                match request.body() {
                    Err(error) => report(chat, error.description()),
                    Ok(body) => (
                        Exchange::Translating { chat },
                        Command::PostJson { url: config.translate_url.clone(), body },
                    ),
                }
            },
        },
        Exchange::Translating { chat } => match read_translation(outcome) {
            Err(error) => report(chat, error.description()),
            Ok(text) => (Exchange::Finished, Command::Reply { chat, text }),
        },
        Exchange::Finished => (Exchange::Finished, Command::Nothing),
    }
}

/// A message without text is answered with the prompt for plain text, and
/// nothing is asked of either endpoint: the exchange is finished at once.
pub proof fn message_without_text_is_prompted(config: ConfigView, chat: i64)
    ensures
        on_message(config, chat, None) == (
            ExchangeView::Finished,
            CommandView::Reply { chat, text: "Send me plain text."@ },
        ),
{
}

/// A failed detection ends the exchange with a reply to the chat that begins
/// with the error prefix. The translation endpoint is not asked: neither this
/// step nor any later one gives a command to post.
pub proof fn failed_detection_ends_exchange(
    config: ConfigView,
    chat: i64,
    text: Seq<char>,
    detection: OutcomeView,
    later: OutcomeView,
)
    ensures
        detected_language(detection) is Err ==> {
            let step = next_step(config, ExchangeView::Detecting { chat, text }, detection);
            &&& step.0 == ExchangeView::Finished
            &&& step.1 matches CommandView::Reply { chat: to, text: reply }
            &&& to == chat
            &&& begins_with(reply, "Translation error: "@)
            &&& next_step(config, step.0, later) == (ExchangeView::Finished, CommandView::Nothing)
        },
{
    if detected_language(detection) is Err {
        prefixed_begins_with(ERROR_PREFIX@, detected_language(detection)->Err_0.description());
    }
}

/// A detection endpoint that answers with a status outside 200..=299 has the
/// exchange end with a reply that begins with the error prefix, and the
/// translation endpoint is not asked.
pub proof fn bad_status_ends_exchange(
    config: ConfigView,
    chat: i64,
    text: Seq<char>,
    status: u16,
    body: Seq<char>,
    later: OutcomeView,
)
    requires
        !is_success(status),
    ensures
        ({
            let step = next_step(
                config,
                ExchangeView::Detecting { chat, text },
                OutcomeView::Answered { status, body },
            );
            &&& step.0 == ExchangeView::Finished
            &&& step.1 matches CommandView::Reply { chat: to, text: reply }
            &&& to == chat
            &&& begins_with(reply, "Translation error: "@)
            &&& next_step(config, step.0, later) == (ExchangeView::Finished, CommandView::Nothing)
        }),
{
    bad_status_fails_detection(status, body);
    failed_detection_ends_exchange(
        config,
        chat,
        text,
        OutcomeView::Answered { status, body },
        later,
    );
}

/// A failed translation ends the exchange with a reply to the chat that
/// begins with the error prefix.
pub proof fn failed_translation_ends_exchange(
    config: ConfigView,
    chat: i64,
    translation: OutcomeView,
)
    ensures
        translated_text(translation) is Err ==> {
            let step = next_step(config, ExchangeView::Translating { chat }, translation);
            &&& step.0 == ExchangeView::Finished
            &&& step.1 matches CommandView::Reply { chat: to, text: reply }
            &&& to == chat
            &&& begins_with(reply, "Translation error: "@)
        },
{
    if translated_text(translation) is Err {
        prefixed_begins_with(ERROR_PREFIX@, translated_text(translation)->Err_0.description());
    }
}

/// A translation that succeeds ends the exchange with the translated text
/// as the reply, unchanged.
pub proof fn translated_text_is_the_reply(
    config: ConfigView,
    chat: i64,
    translation: OutcomeView,
    translated: Seq<char>,
)
    ensures
        translated_text(translation) == Ok::<Seq<char>, TranslationErrorView>(translated)
            ==> next_step(config, ExchangeView::Translating { chat }, translation) == finish(
            chat,
            translated,
        ),
{
}

/// An exchange gives exactly one reply, to the chat of the message, and is
/// finished once both outcomes are in. The reply is [`reply_to`] of the
/// message and the outcomes; it comes at the first step that asks for no
/// call, and every step after it asks for nothing.
pub proof fn exchange_ends_with_reply(
    config: ConfigView,
    chat: i64,
    text: Option<Seq<char>>,
    detection: OutcomeView,
    translation: OutcomeView,
)
    ensures
        ({
            let first = on_message(config, chat, text);
            let second = next_step(config, first.0, detection);
            let third = next_step(config, second.0, translation);
            let reply = CommandView::Reply {
                chat,
                text: reply_to(config, text, detection, translation),
            };
            &&& third.0 == ExchangeView::Finished
            &&& {
                ||| first.1 == reply && second.1 == CommandView::Nothing && third.1
                    == CommandView::Nothing
                ||| first.1 is PostForm && second.1 == reply && third.1 == CommandView::Nothing
                ||| first.1 is PostForm && second.1 is PostJson && third.1 == reply
            }
        }),
{
}

/// Handling keeps nothing from one call to the next: a step is decided by
/// the contents of the settings, of the state and of the outcome, so two
/// steps whose inputs hold the same give the same state and the same
/// command.
pub proof fn same_inputs_same_step(
    config: Config,
    state: Exchange,
    outcome: Outcome,
    config_again: Config,
    state_again: Exchange,
    outcome_again: Outcome,
)
    requires
        config@ == config_again@,
        state@ == state_again@,
        outcome@ == outcome_again@,
    ensures
        next_step(config@, state@, outcome@) == next_step(
            config_again@,
            state_again@,
            outcome_again@,
        ),
{
}

/// The same message gets the same reply whenever the endpoints answer the
/// same.
pub proof fn same_inputs_same_reply(
    config: Config,
    text: Option<Seq<char>>,
    detection: Outcome,
    translation: Outcome,
    config_again: Config,
    detection_again: Outcome,
    translation_again: Outcome,
)
    requires
        config@ == config_again@,
        detection@ == detection_again@,
        translation@ == translation_again@,
    ensures
        reply_to(config@, text, detection@, translation@) == reply_to(
            config_again@,
            text,
            detection_again@,
            translation_again@,
        ),
{
}

} // verus!
