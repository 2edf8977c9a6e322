use watch_party::connection::{
    handle_message, host_room, join_room, join_room_as, leave_room, Connection, Dispatch, Inbound,
    RoomJoinError,
};
use watch_party::relay::Relay;
use watch_party::model::{
    ClientMessage, Message, PlayerStatus, RelayMessage, RoomInfo, ServerMessage, UserJoined,
    UserLeft, UserMeta, UserState,
};
use watch_party::registry::{RoomProviderError, RoomRegistry};

/// The code written "AB12".
const AB12: u32 = 480854;

fn meta(id: u128, name: &str) -> UserMeta {
    UserMeta { id, name: name.to_string(), state: UserState::VideoNotSelected }
}

#[test]
fn host_room_greets_the_host() {
    let mut rooms = RoomRegistry::new();
    let acc = host_room(&mut rooms, "host".to_string(), &vec![480854]).unwrap();
    let id = acc.connection.user_id;
    assert_eq!(acc.connection.room_id, "AB12");
    assert_eq!(
        acc.greeting,
        Message::Server(ServerMessage::RoomCreated(RoomInfo {
            room_id: "AB12".to_string(),
            user_id: id,
            users: vec![meta(id, "host")],
            player_status: PlayerStatus::Paused(0),
        }))
    );
    assert_eq!(acc.connection.relay.session_id, None);
    assert_eq!(rooms.room_users(AB12).unwrap(), vec![meta(id, "host")]);
}

#[test]
fn host_room_reports_exhausted_codes() {
    let mut rooms = RoomRegistry::new();
    assert_eq!(
        host_room(&mut rooms, "host".to_string(), &vec![]).unwrap_err(),
        RoomJoinError::RoomProviderError(RoomProviderError::KeyGenerationFailed)
    );
}

#[test]
fn join_room_unknown_id_is_an_error() {
    let mut rooms = RoomRegistry::new();
    host_room(&mut rooms, "host".to_string(), &vec![480854]).unwrap();
    let err = join_room(&mut rooms, "QQQQ", "guest".to_string()).unwrap_err();
    assert_eq!(err, RoomJoinError::RoomProviderError(RoomProviderError::RoomDoesntExist));
    assert_eq!(err.status_code(), 400);
    assert_eq!(rooms.room_users(AB12).unwrap().len(), 1);
}

#[test]
fn error_status_codes() {
    assert_eq!(RoomJoinError::RoomProviderError(RoomProviderError::KeyGenerationFailed).status_code(), 500);
    assert_eq!(RoomJoinError::RoomProviderError(RoomProviderError::UserIdTaken).status_code(), 500);
}

#[test]
fn join_and_leave_are_announced_to_the_others() {
    let mut rooms = RoomRegistry::new();
    let host = host_room(&mut rooms, "host".to_string(), &vec![480854]).unwrap().connection;
    let second = join_room(&mut rooms, "AB12", "b".to_string()).unwrap().connection;
    rooms.take_outbox(AB12, host.user_id).unwrap();
    let acc = join_room(&mut rooms, "ab12", "c".to_string()).unwrap();
    let third = acc.connection;
    let everyone = vec![
        meta(host.user_id, "host"),
        meta(second.user_id, "b"),
        meta(third.user_id, "c"),
    ];
    assert_eq!(
        acc.greeting,
        Message::Server(ServerMessage::RoomJoined(RoomInfo {
            room_id: "AB12".to_string(),
            user_id: third.user_id,
            users: everyone.clone(),
            player_status: PlayerStatus::Paused(0),
        }))
    );
    let joined = Message::Server(ServerMessage::UserJoined(UserJoined {
        new_user: third.user_id,
        users: everyone.clone(),
        player_status: PlayerStatus::Paused(0),
    }));
    assert_eq!(rooms.take_outbox(AB12, host.user_id), Some(vec![joined.clone()]));
    assert_eq!(rooms.take_outbox(AB12, second.user_id), Some(vec![joined]));
    assert_eq!(rooms.take_outbox(AB12, third.user_id), Some(vec![]));

    leave_room(&mut rooms, &third);
    let rest = vec![meta(host.user_id, "host"), meta(second.user_id, "b")];
    let left = Message::Server(ServerMessage::UserLeft(UserLeft {
        user_left: third.user_id,
        users: rest.clone(),
        player_status: PlayerStatus::Paused(0),
    }));
    assert_eq!(rooms.take_outbox(AB12, host.user_id), Some(vec![left.clone()]));
    assert_eq!(rooms.take_outbox(AB12, second.user_id), Some(vec![left]));
    assert_eq!(rooms.room_users(AB12).unwrap(), rest);
}

#[test]
fn host_leaving_ends_the_room() {
    let mut rooms = RoomRegistry::new();
    let host = host_room(&mut rooms, "host".to_string(), &vec![480854]).unwrap().connection;
    let guest = join_room(&mut rooms, "AB12", "g".to_string()).unwrap().connection;
    leave_room(&mut rooms, &host);
    assert!(rooms.room(AB12).is_none());
    assert_eq!(rooms.take_outbox(AB12, guest.user_id), None);
    assert_eq!(
        join_room(&mut rooms, "AB12", "late".to_string()).unwrap_err(),
        RoomJoinError::RoomProviderError(RoomProviderError::RoomDoesntExist)
    );
}

#[test]
fn client_messages_update_the_room_and_reach_the_others() {
    let mut rooms = RoomRegistry::new();
    let mut host = host_room(&mut rooms, "host".to_string(), &vec![480854]).unwrap().connection;
    let guest = join_room(&mut rooms, "AB12", "g".to_string()).unwrap().connection;
    rooms.take_outbox(AB12, host.user_id).unwrap();
    let me = host.user_id;

    let play = Message::Client(me, ClientMessage::Play(30));
    assert_eq!(handle_message(&mut host, &mut rooms, Inbound::Message(play.clone())), Dispatch::Shared);
    assert_eq!(rooms.player_status(AB12), Some(PlayerStatus::Playing(30)));

    let seek = Message::Client(me, ClientMessage::Seek(75));
    handle_message(&mut host, &mut rooms, Inbound::Message(seek.clone()));
    assert_eq!(rooms.player_status(AB12), Some(PlayerStatus::Playing(75)));

    let pause = Message::Client(me, ClientMessage::Pause(80));
    handle_message(&mut host, &mut rooms, Inbound::Message(pause.clone()));
    assert_eq!(rooms.player_status(AB12), Some(PlayerStatus::Paused(80)));

    let update = Message::Client(me, ClientMessage::Update(81));
    handle_message(&mut host, &mut rooms, Inbound::Message(update.clone()));
    assert_eq!(rooms.player_status(AB12), Some(PlayerStatus::Paused(81)));

    let pick = Message::Client(me, ClientMessage::SelectedVideo("clip.swf".to_string()));
    handle_message(&mut host, &mut rooms, Inbound::Message(pick.clone()));
    assert_eq!(
        rooms.room_users(AB12).unwrap()[0].state,
        UserState::VideoSelected("clip.swf".to_string())
    );

    let chat = Message::Client(me, ClientMessage::Chat("hi".to_string()));
    handle_message(&mut host, &mut rooms, Inbound::Message(chat.clone()));

    assert_eq!(
        rooms.take_outbox(AB12, guest.user_id),
        Some(vec![play, seek, pause, update, pick, chat])
    );
    assert_eq!(rooms.take_outbox(AB12, me), Some(vec![]));
}

#[test]
fn messages_in_another_name_are_ignored() {
    let mut rooms = RoomRegistry::new();
    let mut host = host_room(&mut rooms, "host".to_string(), &vec![480854]).unwrap().connection;
    let guest = join_room(&mut rooms, "AB12", "g".to_string()).unwrap().connection;
    rooms.take_outbox(AB12, host.user_id).unwrap();
    let forged = Message::Client(guest.user_id, ClientMessage::Play(10));
    assert_eq!(handle_message(&mut host, &mut rooms, Inbound::Message(forged)), Dispatch::Ignored);
    assert_eq!(rooms.player_status(AB12), Some(PlayerStatus::Paused(0)));
    assert_eq!(rooms.take_outbox(AB12, guest.user_id), Some(vec![]));
}

#[test]
fn frames_without_room_effect() {
    let mut rooms = RoomRegistry::new();
    let mut host = host_room(&mut rooms, "host".to_string(), &vec![480854]).unwrap().connection;
    assert_eq!(handle_message(&mut host, &mut rooms, Inbound::Closed), Dispatch::Close);
    assert_eq!(handle_message(&mut host, &mut rooms, Inbound::Malformed), Dispatch::Malformed);
    assert_eq!(handle_message(&mut host, &mut rooms, Inbound::Ignored), Dispatch::Ignored);
    let server_only = Message::Server(ServerMessage::UserLeft(UserLeft {
        user_left: 7,
        users: vec![],
        player_status: PlayerStatus::Paused(0),
    }));
    assert_eq!(handle_message(&mut host, &mut rooms, Inbound::Message(server_only)), Dispatch::Ignored);
    let answer = Message::Relay(RelayMessage::JoinAnswer("sdp".to_string()));
    assert!(matches!(
        handle_message(&mut host, &mut rooms, Inbound::Message(answer)),
        Dispatch::Relay(_)
    ));
}

#[test]
fn join_with_kelvin_sign_reaches_room_k000() {
    let mut rooms = RoomRegistry::new();
    let host = host_room(&mut rooms, "host".to_string(), &vec![20 * 46656]).unwrap().connection;
    assert_eq!(host.room_id, "K000");
    let guest = join_room(&mut rooms, "\u{212A}000", "g".to_string()).unwrap().connection;
    assert_eq!(guest.room, host.room);
    assert_eq!(rooms.room_users(host.room).unwrap().len(), 2);
}

#[test]
fn join_room_as_uses_the_given_id() {
    let mut rooms = RoomRegistry::new();
    let host = host_room(&mut rooms, "host".to_string(), &vec![480854]).unwrap().connection;
    let acc = join_room_as(&mut rooms, "ab12", 77, "guest".to_string()).unwrap();
    assert_eq!(acc.connection.user_id, 77);
    assert_eq!(acc.connection.room, AB12);
    assert_eq!(acc.connection.room_id, "AB12");
    assert_eq!(
        rooms.room_users(AB12).unwrap(),
        vec![meta(host.user_id, "host"), meta(77, "guest")]
    );
    assert_eq!(
        join_room_as(&mut rooms, "AB12", 77, "again".to_string()).unwrap_err(),
        RoomJoinError::RoomProviderError(RoomProviderError::UserIdTaken)
    );
    assert_eq!(
        join_room_as(&mut rooms, "AB13", 78, "lost".to_string()).unwrap_err(),
        RoomJoinError::RoomProviderError(RoomProviderError::RoomDoesntExist)
    );
    assert_eq!(rooms.room_users(AB12).unwrap().len(), 2);
}

#[test]
fn leaving_a_room_one_is_not_in_changes_nothing() {
    let mut rooms = RoomRegistry::new();
    let host = host_room(&mut rooms, "host".to_string(), &vec![480854]).unwrap().connection;
    join_room_as(&mut rooms, "AB12", 5, "g".to_string()).unwrap();
    rooms.take_outbox(AB12, host.user_id).unwrap();
    let stranger = Connection { user_id: 99, room: AB12, room_id: "AB12".to_string(), relay: Relay::new() };
    leave_room(&mut rooms, &stranger);
    assert_eq!(rooms.take_outbox(AB12, host.user_id), Some(vec![]));
    assert_eq!(rooms.take_outbox(AB12, 5), Some(vec![]));
    assert_eq!(rooms.room_users(AB12).unwrap().len(), 2);
    assert!(rooms.has_member(AB12, 5));
    assert!(!rooms.has_member(AB12, 99));
}
