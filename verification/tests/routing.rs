use chat_relay::ids::{ChannelId, MessageId, UserId};
use chat_relay::router::{
    create_thread_params, route, route_from, ChannelKind, InboundMessage, Route,
    ThreadCreationParams,
};

fn inbound(id: u64, channel: u64, author: u64, content: &str, mentions: &[u64]) -> InboundMessage {
    InboundMessage {
        id: MessageId(id),
        channel_id: ChannelId(channel),
        author: UserId(author),
        content: content.to_string(),
        mentions: mentions.iter().map(|m| UserId(*m)).collect(),
        referenced: None,
    }
}

fn params(name: &str) -> ThreadCreationParams {
    ThreadCreationParams {
        name: name.to_string(),
        auto_archive_duration: None,
        rate_limit_per_user: None,
    }
}

#[test]
fn thread_is_named_after_the_message() {
    assert_eq!(create_thread_params(MessageId(1234567890)), params("Conversation: 1234567890"));
    assert_eq!(create_thread_params(MessageId(0)), params("Conversation: 0"));
    assert_eq!(
        create_thread_params(MessageId(u64::MAX)),
        params("Conversation: 18446744073709551615")
    );
}

#[test]
fn thread_sets_no_archive_override_and_no_rate_limit() {
    let made = create_thread_params(MessageId(5));
    assert_eq!(made.auto_archive_duration, None);
    assert_eq!(made.rate_limit_per_user, None);
}

#[test]
fn standard_channel_gets_a_new_thread() {
    let message = inbound(77, 5, 1, "hello <@999>", &[999]);
    assert_eq!(
        route(ChannelKind::StandardChannel, &message),
        Route::NewThread {
            channel: ChannelId(5),
            message: MessageId(77),
            params: params("Conversation: 77"),
        }
    );
}

#[test]
fn threads_are_reused() {
    let message = inbound(77, 5, 1, "hello", &[999]);
    assert_eq!(route(ChannelKind::PublicThread, &message), Route::SameThread { target: ChannelId(5) });
    assert_eq!(route(ChannelKind::PrivateThread, &message), Route::SameThread { target: ChannelId(5) });
}

#[test]
fn other_kinds_use_the_origin_and_are_noted() {
    let message = inbound(77, 5, 1, "hello", &[999]);
    assert_eq!(route(ChannelKind::Other, &message), Route::Unhandled { target: ChannelId(5) });
}

#[test]
fn routing_twice_gives_the_same_route() {
    let message = inbound(77, 5, 1, "hello", &[999]);
    for kind in [
        ChannelKind::StandardChannel,
        ChannelKind::PublicThread,
        ChannelKind::PrivateThread,
        ChannelKind::Other,
    ] {
        assert_eq!(route(kind, &message), route(kind, &message));
        assert_eq!(route(kind, &message), route_from(kind, ChannelId(5), MessageId(77)));
    }
}

#[test]
fn route_does_not_depend_on_author_or_text() {
    let first = inbound(77, 5, 1, "hello", &[999]);
    let second = inbound(77, 5, 2, "something else entirely", &[]);
    assert_eq!(
        route(ChannelKind::StandardChannel, &first),
        route(ChannelKind::StandardChannel, &second)
    );
}

#[test]
fn different_messages_get_different_thread_names() {
    assert_ne!(create_thread_params(MessageId(1)).name, create_thread_params(MessageId(10)).name);
    assert_ne!(create_thread_params(MessageId(12)).name, create_thread_params(MessageId(21)).name);
}

#[test]
fn mention_is_found_among_the_mentions() {
    let message = inbound(1, 1, 1, "hi", &[3, 999, 4]);
    assert!(message.mentions_user_id(UserId(999)));
    assert!(message.mentions_user_id(UserId(3)));
    assert!(message.mentions_user_id(UserId(4)));
    assert!(!message.mentions_user_id(UserId(5)));
    assert!(!message.mentions_user_id(UserId(1)));
}

#[test]
fn no_mentions_mention_nobody() {
    let message = inbound(1, 1, 999, "<@999> in text only", &[]);
    assert!(!message.mentions_user_id(UserId(999)));
}
