use translator_bot::membership::{
    left_chat_member, new_chat_member, route, Event, Handler, Membership,
};

#[test]
fn arrival_is_welcomed_with_title_and_user() {
    assert_eq!(
        new_chat_member(Some("Rustaceans"), 123456789),
        "Welcome to Rustaceans 123456789!"
    );
}

#[test]
fn arrival_in_a_chat_without_title_is_welcomed_with_an_empty_title() {
    assert_eq!(new_chat_member(None, 5), "Welcome to  5!");
    assert_eq!(new_chat_member(Some(""), 5), "Welcome to  5!");
}

#[test]
fn welcome_keeps_the_title_as_it_is() {
    assert_eq!(
        new_chat_member(Some("Чат  путешественников!"), 0),
        "Welcome to Чат  путешественников! 0!"
    );
}

#[test]
fn welcome_writes_the_largest_user_id() {
    assert_eq!(
        new_chat_member(Some("t"), u64::MAX),
        "Welcome to t 18446744073709551615!"
    );
}

#[test]
fn departure_is_bidden_farewell() {
    assert_eq!(left_chat_member(123456789), "Goodbye 123456789!");
    assert_eq!(left_chat_member(0), "Goodbye 0!");
    assert_eq!(left_chat_member(u64::MAX), "Goodbye 18446744073709551615!");
}

#[test]
fn left_to_present_is_routed_to_welcome() {
    let event = Event::MembershipChanged { old: Membership::Left, new: Membership::Present };
    assert_eq!(route(event), Handler::Welcome);
}

#[test]
fn present_to_left_is_routed_to_farewell() {
    let event = Event::MembershipChanged { old: Membership::Present, new: Membership::Left };
    assert_eq!(route(event), Handler::Farewell);
}

#[test]
fn other_membership_changes_are_ignored() {
    let all = [Membership::Left, Membership::Present, Membership::Away];
    for old in all {
        for new in all {
            let expected = match (old, new) {
                (Membership::Left, Membership::Present) => Handler::Welcome,
                (Membership::Present, Membership::Left) => Handler::Farewell,
                _ => Handler::Ignore,
            };
            assert_eq!(route(Event::MembershipChanged { old, new }), expected);
        }
    }
}

#[test]
fn messages_are_routed_to_translation() {
    assert_eq!(route(Event::Message), Handler::Translate);
}

#[test]
fn other_events_are_ignored() {
    assert_eq!(route(Event::Other), Handler::Ignore);
}
