use fq::auth::{make_user_token, AuthError, Claims, Keys};
use fq::game::{Game, Status};
use fq::json::{Kind, Member};
use fq::rooms::{Room, RoomRegistry};
use fq::user::User;
use fq::ws::{
    action_from_members, after_forward, connect_from_members, decode_action, decode_connect,
    handle_start_game, inbound_step, outbound_step, process_message, write_start_game,
    AppMessage, CloseReason, Connection, ConnectMessage, FrameError, InboundStep, Negotiation,
    OutboundStep, Phase, Relay, RoomEvent, SocketEvent, StartDecision,
};
use tokio::sync::broadcast::error::TryRecvError;
use tokio::sync::broadcast::Receiver;

fn keys() -> Keys {
    Keys::new(b"secret")
}

fn user(id: i64, name: &str) -> User {
    User { id, name: String::from(name) }
}

fn claims(sub: i64) -> Claims {
    Claims { sub, name: String::from("bearer"), exp: 2_000_000_000 }
}

fn member(key: &str, kind: Kind, text: &str) -> Member {
    Member { key: String::from(key), kind, text: String::from(text) }
}

fn join_frame(token: &str, channel: &str) -> String {
    format!("{{\"token\":\"{}\",\"channel\":\"{}\"}}", token, channel)
}

fn joined(
    registry: &mut RoomRegistry,
    id: i64,
    name: &str,
    channel: &str,
) -> (Connection, Room, Receiver<String>, String) {
    let keys = keys();
    let token = make_user_token(&user(id, name), &keys).unwrap();
    let mut connection = Connection::open(Some(user(id, name))).unwrap();
    let admitted = match connection.on_join_frame(&keys, &join_frame(&token, channel)) {
        Negotiation::Admitted { channel } => channel,
        other => panic!("the connection should have been admitted, not {:?}", other),
    };
    let entry = connection.enter(registry.get_or_create(&admitted)).unwrap();
    (connection, entry.room, entry.subscription, entry.announcement)
}

#[test]
fn a_connect_frame_names_token_and_channel() {
    let message = decode_connect("{\"token\":\"t0\",\"channel\":\"lobby\"}").unwrap();
    assert_eq!(message.token, "t0");
    assert_eq!(message.channel, "lobby");
    let reordered =
        decode_connect(" {\"channel\":\"a b\",\"extra\":[1,2],\"token\":\"\"} ").unwrap();
    assert_eq!(reordered.token, "");
    assert_eq!(reordered.channel, "a b");
    let escaped = decode_connect("{\"token\":\"q\\\"t\",\"channel\":\"caf\\u00e9\"}").unwrap();
    assert_eq!(escaped.token, "q\"t");
    assert_eq!(escaped.channel, "café");
}

#[test]
fn a_frame_that_is_no_object_is_rejected() {
    assert_eq!(decode_connect("").unwrap_err(), FrameError::NotAnObject);
    assert_eq!(decode_connect("hello").unwrap_err(), FrameError::NotAnObject);
    assert_eq!(decode_connect("null").unwrap_err(), FrameError::NotAnObject);
    assert_eq!(decode_connect("true").unwrap_err(), FrameError::NotAnObject);
    assert_eq!(decode_connect("[\"t\",\"lobby\"]").unwrap_err(), FrameError::NotAnObject);
    assert_eq!(decode_connect("\"lobby\"").unwrap_err(), FrameError::NotAnObject);
    assert_eq!(decode_connect("{\"token\":\"t\"").unwrap_err(), FrameError::NotAnObject);
    assert_eq!(decode_connect("{} trailing").unwrap_err(), FrameError::NotAnObject);
    assert_eq!(decode_action("7").unwrap_err(), FrameError::NotAnObject);
}

#[test]
fn a_connect_frame_without_its_fields_is_rejected() {
    assert_eq!(decode_connect("{}").unwrap_err(), FrameError::MissingField);
    assert_eq!(decode_connect("{\"token\":\"t\"}").unwrap_err(), FrameError::MissingField);
    assert_eq!(decode_connect("{\"channel\":\"lobby\"}").unwrap_err(), FrameError::MissingField);
    assert_eq!(
        decode_connect("{\"token\":\"t\",\"channel\":5}").unwrap_err(),
        FrameError::MissingField
    );
    assert_eq!(
        decode_connect("{\"token\":null,\"channel\":\"lobby\"}").unwrap_err(),
        FrameError::MissingField
    );
    assert_eq!(
        decode_connect("{\"Token\":\"t\",\"channel\":\"lobby\"}").unwrap_err(),
        FrameError::MissingField
    );
}

#[test]
fn connect_messages_are_read_from_members() {
    let members = vec![member("channel", Kind::Text, "den"), member("token", Kind::Text, "t1")];
    let message = connect_from_members(&members).unwrap();
    assert_eq!(message.token, "t1");
    assert_eq!(message.channel, "den");
    let numbered = vec![member("channel", Kind::Number, "5"), member("token", Kind::Text, "t1")];
    assert_eq!(connect_from_members(&numbered).unwrap_err(), FrameError::MissingField);
}

#[test]
fn a_start_game_action_is_read() {
    let frame = "{\"type\":\"StartGame\",\"token\":\"t0\",\"game_id\":12}";
    match decode_action(frame).unwrap() {
        AppMessage::StartGame { token, game_id } => {
            assert_eq!(token, "t0");
            assert_eq!(game_id, 12);
        }
    }
    let negative = "{\"game_id\":-3,\"token\":\"\",\"type\":\"StartGame\"}";
    match decode_action(negative).unwrap() {
        AppMessage::StartGame { token, game_id } => {
            assert_eq!(token, "");
            assert_eq!(game_id, -3);
        }
    }
}

#[test]
fn an_unknown_action_is_rejected_by_its_type() {
    assert_eq!(
        decode_action("{\"type\":\"JoinGame\",\"token\":\"t\"}").unwrap_err(),
        FrameError::UnknownType
    );
    assert_eq!(
        decode_action("{\"type\":\"startgame\",\"token\":\"t\",\"game_id\":1}").unwrap_err(),
        FrameError::UnknownType
    );
    assert_eq!(decode_action("{\"type\":\"\"}").unwrap_err(), FrameError::UnknownType);
}

#[test]
fn an_action_without_its_fields_is_rejected() {
    assert_eq!(decode_action("{}").unwrap_err(), FrameError::MissingField);
    assert_eq!(
        decode_action("{\"token\":\"t\",\"game_id\":1}").unwrap_err(),
        FrameError::MissingField
    );
    assert_eq!(
        decode_action("{\"type\":7,\"token\":\"t\",\"game_id\":1}").unwrap_err(),
        FrameError::MissingField
    );
    assert_eq!(
        decode_action("{\"type\":\"StartGame\",\"game_id\":1}").unwrap_err(),
        FrameError::MissingField
    );
    assert_eq!(
        decode_action("{\"type\":\"StartGame\",\"token\":\"t\"}").unwrap_err(),
        FrameError::MissingField
    );
    assert_eq!(
        decode_action("{\"type\":\"StartGame\",\"token\":\"t\",\"game_id\":\"1\"}").unwrap_err(),
        FrameError::MissingField
    );
    assert_eq!(
        decode_action("{\"type\":\"StartGame\",\"token\":\"t\",\"game_id\":1.5}").unwrap_err(),
        FrameError::MissingField
    );
    assert_eq!(
        decode_action("{\"type\":\"StartGame\",\"token\":\"t\",\"game_id\":9223372036854775808}")
            .unwrap_err(),
        FrameError::MissingField
    );
    assert_eq!(
        decode_action("{\"StartGame\":{\"token\":\"t\",\"game_id\":1}}").unwrap_err(),
        FrameError::MissingField
    );
}

#[test]
fn actions_are_read_from_members() {
    let members = vec![
        member("type", Kind::Text, "StartGame"),
        member("token", Kind::Text, "t1"),
        member("game_id", Kind::Number, "77"),
    ];
    match action_from_members(&members).unwrap() {
        AppMessage::StartGame { token, game_id } => {
            assert_eq!(token, "t1");
            assert_eq!(game_id, 77);
        }
    }
    let other = vec![member("type", Kind::Text, "Other")];
    assert_eq!(action_from_members(&other).unwrap_err(), FrameError::UnknownType);
    assert_eq!(action_from_members(&Vec::new()).unwrap_err(), FrameError::MissingField);
}

#[test]
fn an_action_is_relayed_in_its_debug_form() {
    let action = AppMessage::StartGame { token: String::from("abc"), game_id: 3 };
    assert_eq!(action.debug_text(), "StartGame { token: \"abc\", game_id: 3 }");
    assert_eq!(action.debug_text(), format!("{:?}", action));
    let odd = AppMessage::StartGame { token: String::from("a\"b\\c\n"), game_id: -40 };
    assert_eq!(odd.debug_text(), "StartGame { token: \"a\\\"b\\\\c\\n\", game_id: -40 }");
    assert_eq!(odd.debug_text(), format!("{:?}", odd));
    assert_eq!(write_start_game("<t>", 5), "StartGame { token: <t>, game_id: 5 }");
}

#[test]
fn an_upgrade_without_identity_is_unauthorized() {
    let refused = Connection::open(None).unwrap_err();
    assert_eq!(refused, AuthError::WrongCredentials);
    assert_eq!(refused.status_code(), 401);
}

#[test]
fn a_new_connection_negotiates() {
    let connection = Connection::open(Some(user(1, "A"))).unwrap();
    assert_eq!(connection.phase(), Phase::Negotiating);
    assert_eq!(connection.channel(), None);
    assert_eq!(connection.close_reason(), None);
    assert_eq!(connection.user().id, 1);
    assert_eq!(connection.user().name, "A");
}

#[test]
fn joining_announces_the_user_to_the_room() {
    let mut registry = RoomRegistry::new();
    let (connection, room, mut subscription, announcement) = joined(&mut registry, 1, "A", "lobby");
    assert_eq!(announcement, "A joined lobby");
    assert_eq!(connection.phase(), Phase::Relaying);
    assert_eq!(connection.channel(), Some("lobby"));
    assert_eq!(connection.close_reason(), None);
    assert_eq!(registry.len(), 1);
    assert!(registry.contains("lobby"));
    assert!(registry.get_or_create("lobby").tx.same_channel(&room.tx));
    assert_eq!(subscription.try_recv(), Ok(String::from("A joined lobby")));
    assert_eq!(subscription.try_recv(), Err(TryRecvError::Empty));
}

#[test]
fn a_malformed_join_frame_is_answered_and_makes_no_room() {
    let mut registry = RoomRegistry::new();
    let keys = keys();
    let mut connection = Connection::open(Some(user(1, "A"))).unwrap();
    match connection.on_join_frame(&keys, "{\"token\":\"abc\"}") {
        Negotiation::Malformed { reply } => assert_eq!(reply, "Failed to parse connect message"),
        other => panic!("the frame has no channel, yet {:?}", other),
    }
    assert_eq!(connection.phase(), Phase::Negotiating);
    assert_eq!(connection.channel(), None);
    assert_eq!(connection.close_reason(), None);
    assert!(connection.enter(Room::new()).is_none());
    assert_eq!(connection.phase(), Phase::Negotiating);
    match connection.on_join_frame(&keys, "not json") {
        Negotiation::Malformed { reply } => assert_eq!(reply, "Failed to parse connect message"),
        other => panic!("the frame is no object, yet {:?}", other),
    }
    assert_eq!(registry.len(), 0);
    assert!(!registry.contains("lobby"));
    let token = make_user_token(&user(1, "A"), &keys).unwrap();
    match connection.on_join_frame(&keys, &join_frame(&token, "lobby")) {
        Negotiation::Admitted { channel } => {
            assert_eq!(channel, "lobby");
            assert!(connection.enter(registry.get_or_create(&channel)).is_some());
        }
        other => panic!("the frame is a connect message, yet {:?}", other),
    }
    assert_eq!(registry.len(), 1);
    assert_eq!(connection.phase(), Phase::Relaying);
}

#[test]
fn a_join_frame_with_a_bad_token_closes_the_connection() {
    let keys = keys();
    let mut connection = Connection::open(Some(user(1, "A"))).unwrap();
    match connection.on_join_frame(&keys, &join_frame("forged", "lobby")) {
        Negotiation::Unauthorized { reply } => assert_eq!(reply, "Invalid token"),
        other => panic!("the token is forged, yet {:?}", other),
    }
    assert_eq!(connection.phase(), Phase::Closed);
    assert_eq!(connection.close_reason(), Some(CloseReason::Unauthorized));
    assert_eq!(connection.channel(), None);
    let token = make_user_token(&user(1, "A"), &keys).unwrap();
    assert!(matches!(
        connection.on_join_frame(&keys, &join_frame(&token, "lobby")),
        Negotiation::NotNegotiating
    ));
    assert!(connection.enter(Room::new()).is_none());
    assert_eq!(connection.phase(), Phase::Closed);
    assert!(connection.finish(Relay::Inbound, CloseReason::SocketClosed).is_none());
    assert_eq!(connection.close_reason(), Some(CloseReason::Unauthorized));
}

#[test]
fn a_token_of_another_secret_is_turned_away() {
    let mut connection = Connection::open(Some(user(1, "A"))).unwrap();
    let token = make_user_token(&user(1, "A"), &Keys::new(b"other")).unwrap();
    assert!(matches!(
        connection.on_join_frame(&keys(), &join_frame(&token, "lobby")),
        Negotiation::Unauthorized { .. }
    ));
    assert_eq!(connection.phase(), Phase::Closed);
}

#[test]
fn negotiate_decides_by_message_and_bearer() {
    let message = |channel: &str| {
        Ok(ConnectMessage { token: String::from("t"), channel: String::from(channel) })
    };
    let mut malformed = Connection::open(Some(user(1, "A"))).unwrap();
    match malformed.negotiate(Err(FrameError::MissingField), None) {
        Negotiation::Malformed { reply } => assert_eq!(reply, "Failed to parse connect message"),
        other => panic!("there is no message, yet {:?}", other),
    }
    assert_eq!(malformed.phase(), Phase::Negotiating);
    assert_eq!(malformed.channel(), None);

    let mut refused = Connection::open(Some(user(1, "A"))).unwrap();
    match refused.negotiate(message("lobby"), None) {
        Negotiation::Unauthorized { reply } => assert_eq!(reply, "Invalid token"),
        other => panic!("there is no bearer, yet {:?}", other),
    }
    assert_eq!(refused.phase(), Phase::Closed);
    assert_eq!(refused.close_reason(), Some(CloseReason::Unauthorized));
    assert_eq!(refused.channel(), None);

    let mut admitted = Connection::open(Some(user(2, "B"))).unwrap();
    match admitted.negotiate(message("den"), Some(claims(9))) {
        Negotiation::Admitted { channel } => assert_eq!(channel, "den"),
        other => panic!("there is a bearer, yet {:?}", other),
    }
    assert_eq!(admitted.phase(), Phase::Negotiating);
    assert_eq!(admitted.channel(), Some("den"));
    assert_eq!(admitted.user().id, 2);
    assert!(matches!(
        admitted.negotiate(message("other"), Some(claims(9))),
        Negotiation::NotNegotiating
    ));
    assert_eq!(admitted.channel(), Some("den"));
}

#[test]
fn entering_subscribes_before_it_announces() {
    let room = Room::new();
    let mut watcher = room.subscribe();
    let mut connection = Connection::open(Some(user(2, "B"))).unwrap();
    let message = ConnectMessage { token: String::from("t"), channel: String::from("den") };
    assert!(matches!(
        connection.negotiate(Ok(message), Some(claims(2))),
        Negotiation::Admitted { .. }
    ));
    let mut entry = connection.enter(room.handle()).unwrap();
    assert_eq!(entry.announcement, "B joined den");
    assert!(entry.room.tx.same_channel(&room.tx));
    assert_eq!(connection.phase(), Phase::Relaying);
    assert_eq!(connection.channel(), Some("den"));
    assert_eq!(watcher.try_recv(), Ok(String::from("B joined den")));
    assert_eq!(entry.subscription.try_recv(), Ok(String::from("B joined den")));
    assert_eq!(entry.subscription.try_recv(), Err(TryRecvError::Empty));
}

#[test]
fn a_negotiating_connection_passes_over_other_frames() {
    let keys = keys();
    let mut connection = Connection::open(Some(user(1, "A"))).unwrap();
    assert!(matches!(
        connection.on_socket_event(&keys, SocketEvent::Other),
        Negotiation::Ignored
    ));
    assert_eq!(connection.phase(), Phase::Negotiating);
    let frame = SocketEvent::Text(String::from("{\"channel\":5}"));
    assert!(matches!(
        connection.on_socket_event(&keys, frame),
        Negotiation::Malformed { .. }
    ));
    assert_eq!(connection.phase(), Phase::Negotiating);
    let token = make_user_token(&user(1, "A"), &keys).unwrap();
    let frame = SocketEvent::Text(join_frame(&token, "lobby"));
    match connection.on_socket_event(&keys, frame) {
        Negotiation::Admitted { channel } => assert_eq!(channel, "lobby"),
        other => panic!("the frame is a connect message, yet {:?}", other),
    }
    assert!(matches!(
        connection.on_socket_event(&keys, SocketEvent::Closed),
        Negotiation::NotNegotiating
    ));
}

#[test]
fn a_socket_that_ends_while_negotiating_ends_the_connection() {
    let mut connection = Connection::open(Some(user(1, "A"))).unwrap();
    assert!(matches!(
        connection.on_socket_event(&keys(), SocketEvent::Closed),
        Negotiation::Ended
    ));
    assert_eq!(connection.phase(), Phase::Closed);
    assert_eq!(connection.close_reason(), Some(CloseReason::SocketClosed));
    assert_eq!(connection.channel(), None);
    assert!(matches!(
        connection.on_socket_event(&keys(), SocketEvent::Other),
        Negotiation::NotNegotiating
    ));
}

#[test]
fn a_connection_joins_only_once() {
    let mut registry = RoomRegistry::new();
    let keys = keys();
    let (mut connection, _room, _subscription, _announcement) =
        joined(&mut registry, 1, "A", "lobby");
    let token = make_user_token(&user(1, "A"), &keys).unwrap();
    assert!(matches!(
        connection.on_join_frame(&keys, &join_frame(&token, "other")),
        Negotiation::NotNegotiating
    ));
    let other = registry.get_or_create("other");
    let mut inbox = other.subscribe();
    assert!(connection.enter(other).is_none());
    assert_eq!(inbox.try_recv(), Err(TryRecvError::Empty));
    assert_eq!(connection.channel(), Some("lobby"));
    assert_eq!(connection.phase(), Phase::Relaying);
}

#[test]
fn a_later_joiner_receives_only_what_follows() {
    let mut registry = RoomRegistry::new();
    let (_a, room_a, mut inbox_a, _) = joined(&mut registry, 1, "A", "lobby");
    let (_b, room_b, mut inbox_b, announcement_b) = joined(&mut registry, 2, "B", "lobby");
    assert!(room_a.tx.same_channel(&room_b.tx));
    assert_eq!(announcement_b, "B joined lobby");
    assert_eq!(inbox_a.try_recv(), Ok(String::from("A joined lobby")));
    assert_eq!(inbox_a.try_recv(), Ok(String::from("B joined lobby")));
    assert_eq!(inbox_b.try_recv(), Ok(String::from("B joined lobby")));
    assert_eq!(inbox_b.try_recv(), Err(TryRecvError::Empty));

    assert!(matches!(
        inbound_step(&room_a, SocketEvent::Text(String::from("hello"))),
        InboundStep::Dropped(FrameError::NotAnObject)
    ));
    assert_eq!(inbox_a.try_recv(), Err(TryRecvError::Empty));
    assert_eq!(inbox_b.try_recv(), Err(TryRecvError::Empty));

    let action = "{\"type\":\"StartGame\",\"token\":\"t\",\"game_id\":3}";
    match inbound_step(&room_a, SocketEvent::Text(String::from(action))) {
        InboundStep::Relayed { message, relayed } => {
            assert_eq!(relayed, "StartGame { token: \"t\", game_id: 3 }");
            match message {
                AppMessage::StartGame { token, game_id } => {
                    assert_eq!(token, "t");
                    assert_eq!(game_id, 3);
                }
            }
        }
        _ => panic!("the frame is an action"),
    }
    let relayed = String::from("StartGame { token: \"t\", game_id: 3 }");
    assert_eq!(inbox_b.try_recv(), Ok(relayed.clone()));
    assert_eq!(inbox_b.try_recv(), Err(TryRecvError::Empty));
    assert_eq!(inbox_a.try_recv(), Ok(relayed));
    assert_eq!(inbox_a.try_recv(), Err(TryRecvError::Empty));
}

#[test]
fn rooms_do_not_hear_each_other() {
    let mut registry = RoomRegistry::new();
    let (_a, room_a, mut inbox_a, _) = joined(&mut registry, 1, "A", "lobby");
    let (_b, _room_b, mut inbox_b, _) = joined(&mut registry, 2, "B", "den");
    assert_eq!(registry.len(), 2);
    assert_eq!(inbox_a.try_recv(), Ok(String::from("A joined lobby")));
    assert_eq!(inbox_b.try_recv(), Ok(String::from("B joined den")));
    room_a.publish(String::from("only lobby"));
    assert_eq!(inbox_a.try_recv(), Ok(String::from("only lobby")));
    assert_eq!(inbox_b.try_recv(), Err(TryRecvError::Empty));
}

#[test]
fn process_message_relays_actions_and_drops_the_rest() {
    let room = Room::new();
    let mut inbox = room.subscribe();
    let (message, relayed) =
        process_message(&room, "{\"type\":\"StartGame\",\"token\":\"x y\",\"game_id\":8}").unwrap();
    assert_eq!(relayed, "StartGame { token: \"x y\", game_id: 8 }");
    assert_eq!(relayed, format!("{:?}", message));
    assert_eq!(inbox.try_recv(), Ok(relayed));
    assert_eq!(process_message(&room, "{\"type\":\"Dance\"}").unwrap_err(), FrameError::UnknownType);
    assert_eq!(process_message(&room, "{\"x\":1}").unwrap_err(), FrameError::MissingField);
    assert_eq!(process_message(&room, "plain text").unwrap_err(), FrameError::NotAnObject);
    assert_eq!(inbox.try_recv(), Err(TryRecvError::Empty));
}

#[test]
fn the_inbound_relay_ends_with_the_socket() {
    let room = Room::new();
    let mut inbox = room.subscribe();
    match inbound_step(&room, SocketEvent::Closed) {
        InboundStep::Finish(reason) => assert_eq!(reason, CloseReason::SocketClosed),
        _ => panic!("the socket has ended"),
    }
    match inbound_step(&room, SocketEvent::Other) {
        InboundStep::Finish(reason) => assert_eq!(reason, CloseReason::SocketClosed),
        _ => panic!("the frame is not text"),
    }
    assert!(matches!(
        inbound_step(&room, SocketEvent::Text(String::from("{\"type\":\"Nope\"}"))),
        InboundStep::Dropped(FrameError::UnknownType)
    ));
    assert_eq!(inbox.try_recv(), Err(TryRecvError::Empty));
}

#[test]
fn the_outbound_relay_forwards_messages() {
    match outbound_step(RoomEvent::Message(String::from("A joined lobby"))) {
        OutboundStep::Forward(frame) => assert_eq!(frame, "A joined lobby"),
        _ => panic!("a message is forwarded"),
    }
    assert_eq!(after_forward(true), None);
    assert_eq!(after_forward(false), Some(CloseReason::SendFailed));
}

#[test]
fn lag_ends_the_outbound_relay_and_is_kept_as_the_reason() {
    match outbound_step(RoomEvent::Lagged(6)) {
        OutboundStep::Finish(reason) => assert_eq!(reason, CloseReason::Lagged(6)),
        _ => panic!("lag is not forwarded"),
    }
    match outbound_step(RoomEvent::Closed) {
        OutboundStep::Finish(reason) => assert_eq!(reason, CloseReason::RoomClosed),
        _ => panic!("a closed room ends the relay"),
    }
    let mut registry = RoomRegistry::new();
    let (mut connection, room, mut slow, _) = joined(&mut registry, 1, "A", "lobby");
    for i in 0..70 {
        room.publish(format!("message {}", i));
    }
    let event = match slow.try_recv() {
        Err(TryRecvError::Lagged(missed)) => RoomEvent::Lagged(missed),
        other => panic!("the subscriber should lag, not {:?}", other),
    };
    let reason = match outbound_step(event) {
        OutboundStep::Finish(reason) => reason,
        _ => panic!("lag is not forwarded"),
    };
    assert_eq!(reason, CloseReason::Lagged(7));
    let teardown = connection.finish(Relay::Outbound, reason).unwrap();
    assert_eq!(teardown.cancel, Relay::Inbound);
    assert_eq!(connection.close_reason(), Some(CloseReason::Lagged(7)));
}

#[test]
fn leaving_is_announced_exactly_once() {
    let mut registry = RoomRegistry::new();
    let (mut a, _room, _inbox_a, _) = joined(&mut registry, 1, "A", "lobby");
    let (_b, _room_b, mut inbox_b, _) = joined(&mut registry, 2, "B", "lobby");
    assert_eq!(inbox_b.try_recv(), Ok(String::from("B joined lobby")));

    let teardown = a.finish(Relay::Inbound, CloseReason::SocketClosed).unwrap();
    assert_eq!(teardown.cancel, Relay::Outbound);
    assert_eq!(teardown.announcement, "A left.");
    assert_eq!(a.phase(), Phase::Closed);
    assert_eq!(a.close_reason(), Some(CloseReason::SocketClosed));
    assert_eq!(a.channel(), Some("lobby"));

    assert!(a.finish(Relay::Outbound, CloseReason::SendFailed).is_none());
    assert!(a.finish(Relay::Inbound, CloseReason::SocketClosed).is_none());
    assert_eq!(a.close_reason(), Some(CloseReason::SocketClosed));

    assert_eq!(inbox_b.try_recv(), Ok(String::from("A left.")));
    assert_eq!(inbox_b.try_recv(), Err(TryRecvError::Empty));
    assert_eq!(registry.len(), 1);
}

#[test]
fn the_other_relay_is_the_one_cancelled() {
    assert_eq!(Relay::Outbound.other(), Relay::Inbound);
    assert_eq!(Relay::Inbound.other(), Relay::Outbound);
    let mut registry = RoomRegistry::new();
    let (mut connection, _room, _inbox, _) = joined(&mut registry, 1, "A", "lobby");
    let teardown = connection.finish(Relay::Outbound, CloseReason::SendFailed).unwrap();
    assert_eq!(teardown.cancel, Relay::Inbound);
    assert_eq!(connection.close_reason(), Some(CloseReason::SendFailed));
}

#[test]
fn a_connection_that_never_joined_leaves_silently() {
    let mut connection = Connection::open(Some(user(1, "A"))).unwrap();
    assert!(connection.finish(Relay::Inbound, CloseReason::TimedOut).is_none());
    assert_eq!(connection.phase(), Phase::Closed);
    assert_eq!(connection.close_reason(), Some(CloseReason::TimedOut));
    assert_eq!(connection.channel(), None);
    assert!(connection.finish(Relay::Inbound, CloseReason::SocketClosed).is_none());
    assert_eq!(connection.close_reason(), Some(CloseReason::TimedOut));
}

#[test]
fn a_start_game_action_from_someone_else_changes_nothing() {
    match handle_start_game(Some(claims(2)), Game::new(1)) {
        StartDecision::Refused(game) => {
            assert_eq!(game.status, Status::Init);
            assert!(game.rounds.is_empty());
            assert_eq!(game.host_id, Some(1));
            assert_eq!(game.player_ids, vec![1]);
        }
        StartDecision::Started(_) => panic!("the requester is not the host"),
    }
    assert!(matches!(handle_start_game(None, Game::new(1)), StartDecision::Refused(_)));
    let mut unhosted = Game::new(1);
    unhosted.host_id = None;
    assert!(matches!(handle_start_game(Some(claims(1)), unhosted), StartDecision::Refused(_)));
}

#[test]
fn a_start_game_action_from_the_host_starts_the_game() {
    match handle_start_game(Some(claims(1)), Game::new(1)) {
        StartDecision::Started(game) => {
            assert_eq!(game.status, Status::Playing);
            assert_eq!(game.rounds.len(), 1);
            let midi = game.curr_note_to_guess().unwrap().midi_num();
            assert!(40 <= midi && midi <= 68);
            assert_eq!(game.host_id, Some(1));
        }
        StartDecision::Refused(_) => panic!("the requester is the host"),
    }
}
