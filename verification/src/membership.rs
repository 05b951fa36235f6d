//! Chat membership, the routing of chat events, and the greetings.

use vstd::prelude::*;
use vstd::string::*;
use crate::text::{decimal, decimal_string};

verus! {

/// Where a user stands towards a chat.
#[derive(Debug, Clone, Copy, PartialEq, Eq, Structural)]
pub enum Membership {
    /// The user has left the chat.
    Left,
    /// The user is in the chat.
    Present,
    /// Neither: the user was banned, or is restricted and not in the chat.
    Away,
}

/// A chat event, as far as routing looks at it.
#[derive(Debug, Clone, Copy, PartialEq, Eq, Structural)]
pub enum Event {
    /// The membership of a user changed from `old` to `new`.
    MembershipChanged { old: Membership, new: Membership },
    /// A message arrived.
    Message,
    /// Anything else.
    Other,
}

/// What is done about a chat event.
#[derive(Debug, Clone, Copy, PartialEq, Eq, Structural)]
pub enum Handler {
    /// Welcome the user: see [`new_chat_member`].
    Welcome,
    /// Bid the user farewell: see [`left_chat_member`].
    Farewell,
    /// Translate the message: see [`crate::exchange::repeat_message`].
    Translate,
    /// Nothing.
    Ignore,
}

/// The handler of each chat event: a user who had left and is now present is
/// welcomed, one who was present and has now left is bidden farewell, a
/// message is translated, and nothing else is handled.
pub open spec fn handler_of(event: Event) -> Handler {
    match event {
        Event::MembershipChanged { old: Membership::Left, new: Membership::Present } =>
            Handler::Welcome,
        Event::MembershipChanged { old: Membership::Present, new: Membership::Left } =>
            Handler::Farewell,
        Event::MembershipChanged { .. } => Handler::Ignore,
        Event::Message => Handler::Translate,
        Event::Other => Handler::Ignore,
    }
}

/// The words that welcome the user `user` to the chat called `title`.
pub open spec fn welcome_text(title: Seq<char>, user: u64) -> Seq<char> {
    "Welcome to "@ + title + " "@ + decimal(user as nat) + "!"@
}

/// The words that bid farewell to the user `user`.
pub open spec fn farewell_text(user: u64) -> Seq<char> {
    "Goodbye "@ + decimal(user as nat) + "!"@
}

/// The title to greet with: that of the chat, or nothing where it has none.
pub open spec fn title_or_empty(title: Option<Seq<char>>) -> Seq<char> {
    match title {
        Some(title) => title,
        None => Seq::empty(),
    }
}

/// Picks the handler of a chat event.
pub fn route(event: Event) -> (handler: Handler)
    ensures
        handler == handler_of(event),
{
    match event {
        Event::MembershipChanged { old, new } => match (old, new) {
            (Membership::Left, Membership::Present) => Handler::Welcome,
            (Membership::Present, Membership::Left) => Handler::Farewell,
            _ => Handler::Ignore,
        },
        Event::Message => Handler::Translate,
        Event::Other => Handler::Ignore,
    }
}

/// The reply that welcomes a user to a chat. A chat without a title is
/// greeted with an empty one.
pub fn new_chat_member(chat_title: Option<&str>, user: u64) -> (reply: String)
    ensures
        reply@ == welcome_text(
            title_or_empty(
                match chat_title {
                    Some(title) => Some(title@),
                    None => None,
                },
            ),
            user,
        ),
{
    let mut reply = String::from_str("Welcome to ");
    match chat_title {
        Some(title) => {
            reply.append(title);
        },
        None => {},
    }
    reply.append(" ");
    let id = decimal_string(user);
    reply.append(id.as_str());
    reply.append("!");
    reply
}

/// The reply that bids farewell to a user.
pub fn left_chat_member(user: u64) -> (reply: String)
    ensures
        reply@ == farewell_text(user),
{
    let mut reply = String::from_str("Goodbye ");
    let id = decimal_string(user);
    reply.append(id.as_str());
    reply.append("!");
    reply
}

} // verus!
