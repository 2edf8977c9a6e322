use watch_party::model::{
    ClientMessage, Message, PlayerStatus, PublishSession, Track, UserMeta, UserState,
};
use watch_party::registry::{
    RoomProviderError, RoomRegistry, MAX_CODE_ATTEMPTS, OUTBOX_CAPACITY,
};

/// The code written "AB12".
const AB12: u32 = 480854;

fn meta(id: u128, name: &str) -> UserMeta {
    UserMeta { id, name: name.to_string(), state: UserState::VideoNotSelected }
}

fn chat(from: u128, text: &str) -> Message {
    Message::Client(from, ClientMessage::Chat(text.to_string()))
}

/// A room "AB12" with host 1 and members 2 and 3.
fn room_of_three() -> RoomRegistry {
    let mut rooms = RoomRegistry::new();
    assert_eq!(rooms.create_room(meta(1, "host"), &vec![480854]), Ok(AB12));
    rooms.join_room("AB12", meta(2, "b")).unwrap();
    rooms.join_room("AB12", meta(3, "c")).unwrap();
    rooms
}

#[test]
fn create_room_takes_first_free_code() {
    let mut rooms = RoomRegistry::new();
    assert_eq!(rooms.create_room(meta(1, "h"), &vec![480854]), Ok(AB12));
    // the first draw collides with the live room, the second is free
    assert_eq!(rooms.create_room(meta(2, "h2"), &vec![480854, 0]), Ok(0));
    let users = rooms.room_users(0).unwrap();
    assert_eq!(users, vec![meta(2, "h2")]);
    assert_eq!(rooms.player_status(0), Some(PlayerStatus::Paused(0)));
}

#[test]
fn draws_are_reduced_into_the_code_space() {
    let mut rooms = RoomRegistry::new();
    assert_eq!(rooms.create_room(meta(1, "h"), &vec![1679616 + 480854]), Ok(AB12));
}

#[test]
fn create_room_gives_up_when_codes_collide() {
    let mut rooms = RoomRegistry::new();
    rooms.create_room(meta(1, "h"), &vec![7]).unwrap();
    let draws = vec![7u64; MAX_CODE_ATTEMPTS];
    assert_eq!(rooms.create_room(meta(2, "h"), &draws), Err(RoomProviderError::KeyGenerationFailed));
    assert_eq!(rooms.create_room(meta(2, "h"), &vec![]), Err(RoomProviderError::KeyGenerationFailed));
    // a free code beyond the attempt bound is not tried
    let mut late = vec![7u64; MAX_CODE_ATTEMPTS];
    late.push(8);
    assert_eq!(rooms.create_room(meta(2, "h"), &late), Err(RoomProviderError::KeyGenerationFailed));
    assert!(rooms.room(8).is_none());
}

#[test]
fn no_two_live_rooms_share_an_id() {
    let mut rooms = RoomRegistry::new();
    let a = rooms.create_room(meta(1, "a"), &vec![5, 6]).unwrap();
    let b = rooms.create_room(meta(2, "b"), &vec![5, 6]).unwrap();
    assert_ne!(a, b);
    assert_eq!(rooms.room_users(a).unwrap()[0].id, 1);
    assert_eq!(rooms.room_users(b).unwrap()[0].id, 2);
}

#[test]
fn join_is_case_insensitive_and_appends() {
    let mut rooms = RoomRegistry::new();
    rooms.create_room(meta(1, "host"), &vec![480854]).unwrap();
    let info = rooms.join_room("ab12", meta(2, "guest")).unwrap();
    assert_eq!(info.room_id, "AB12");
    assert_eq!(info.user_id, 2);
    assert_eq!(info.users, vec![meta(1, "host"), meta(2, "guest")]);
    assert_eq!(info.player_status, PlayerStatus::Paused(0));
}

#[test]
fn join_of_unknown_room_fails() {
    let mut rooms = RoomRegistry::new();
    rooms.create_room(meta(1, "host"), &vec![480854]).unwrap();
    assert_eq!(rooms.join_room("ZZZZ", meta(2, "g")), Err(RoomProviderError::RoomDoesntExist));
    assert_eq!(rooms.join_room("not a code", meta(2, "g")), Err(RoomProviderError::RoomDoesntExist));
}

#[test]
fn join_with_taken_id_fails() {
    let mut rooms = RoomRegistry::new();
    rooms.create_room(meta(1, "host"), &vec![480854]).unwrap();
    assert_eq!(rooms.join_room("AB12", meta(1, "again")), Err(RoomProviderError::UserIdTaken));
    assert_eq!(rooms.room_users(AB12).unwrap().len(), 1);
}

#[test]
fn broadcast_skips_excluded_users() {
    let mut rooms = room_of_three();
    rooms.broadcast_excluding(AB12, &chat(1, "first"), &vec![1]);
    rooms.broadcast_excluding(AB12, &chat(1, "second"), &vec![1]);
    assert_eq!(rooms.take_outbox(AB12, 1), Some(vec![]));
    assert_eq!(rooms.take_outbox(AB12, 2), Some(vec![chat(1, "first"), chat(1, "second")]));
    assert_eq!(rooms.take_outbox(AB12, 3), Some(vec![chat(1, "first"), chat(1, "second")]));
    // taking empties the outbox
    assert_eq!(rooms.take_outbox(AB12, 2), Some(vec![]));
}

#[test]
fn full_outbox_drops_new_messages() {
    let mut rooms = room_of_three();
    for i in 0..OUTBOX_CAPACITY + 3 {
        rooms.broadcast_excluding(AB12, &chat(1, &i.to_string()), &vec![]);
    }
    let got = rooms.take_outbox(AB12, 2).unwrap();
    assert_eq!(got.len(), OUTBOX_CAPACITY);
    assert_eq!(got[0], chat(1, "0"));
    assert_eq!(got[OUTBOX_CAPACITY - 1], chat(1, &(OUTBOX_CAPACITY - 1).to_string()));
}

#[test]
fn send_to_user_reaches_one() {
    let mut rooms = room_of_three();
    rooms.send_to_user(AB12, 3, &chat(2, "psst"));
    assert_eq!(rooms.take_outbox(AB12, 1), Some(vec![]));
    assert_eq!(rooms.take_outbox(AB12, 2), Some(vec![]));
    assert_eq!(rooms.take_outbox(AB12, 3), Some(vec![chat(2, "psst")]));
}

#[test]
fn take_outbox_of_absent_user_or_room() {
    let mut rooms = room_of_three();
    assert_eq!(rooms.take_outbox(AB12, 99), None);
    assert_eq!(rooms.take_outbox(0, 1), None);
}

#[test]
fn leaving_member_keeps_order_and_host() {
    let mut rooms = room_of_three();
    let left = rooms.remove_user(AB12, 2).unwrap();
    assert_eq!(left, vec![meta(1, "host"), meta(3, "c")]);
    rooms.join_room("AB12", meta(4, "d")).unwrap();
    let users = rooms.room_users(AB12).unwrap();
    assert_eq!(users[0].id, 1);
    assert_eq!(users.len(), 3);
}

#[test]
fn removing_absent_user_changes_nothing() {
    let mut rooms = room_of_three();
    assert_eq!(rooms.remove_user(AB12, 42).unwrap().len(), 3);
    assert_eq!(rooms.remove_user(0, 1), None);
}

#[test]
fn host_leaving_closes_the_room() {
    let mut rooms = room_of_three();
    assert_eq!(rooms.remove_user(AB12, 1), None);
    assert!(rooms.room(AB12).is_none());
    assert_eq!(rooms.join_room("AB12", meta(5, "late")), Err(RoomProviderError::RoomDoesntExist));
    assert_eq!(rooms.take_outbox(AB12, 2), None);
}

#[test]
fn playback_updates() {
    let mut rooms = room_of_three();
    assert!(rooms.set_player_status(AB12, PlayerStatus::Playing(40)));
    assert!(rooms.set_playback_time(AB12, 90));
    assert_eq!(rooms.player_status(AB12), Some(PlayerStatus::Playing(90)));
    assert!(rooms.set_player_status(AB12, PlayerStatus::Paused(91)));
    assert!(rooms.set_playback_time(AB12, 5));
    assert_eq!(rooms.player_status(AB12), Some(PlayerStatus::Paused(5)));
    assert!(!rooms.set_player_status(0, PlayerStatus::Playing(1)));
    assert!(!rooms.set_playback_time(0, 1));
}

#[test]
fn user_state_updates() {
    let mut rooms = room_of_three();
    assert!(rooms.set_user_state(AB12, 2, UserState::VideoSelected("movie.swf".to_string())));
    let users = rooms.room_users(AB12).unwrap();
    assert_eq!(users[1].state, UserState::VideoSelected("movie.swf".to_string()));
    assert_eq!(users[0].state, UserState::VideoNotSelected);
    assert_eq!(users[2].state, UserState::VideoNotSelected);
}

#[test]
fn publish_session_is_set_once() {
    let mut rooms = room_of_three();
    let first = PublishSession {
        session_id: "S-host".to_string(),
        tracks: vec![Track { mid: Some("0".to_string()), track_name: Some("cam".to_string()) }],
    };
    let second = PublishSession { session_id: "S-other".to_string(), tracks: vec![] };
    assert!(rooms.set_publish_session(AB12, first.clone()));
    assert!(!rooms.set_publish_session(AB12, second));
    assert_eq!(rooms.room(AB12).unwrap().publish, Some(first));
    assert!(!rooms.set_publish_session(0, PublishSession { session_id: "x".to_string(), tracks: vec![] }));
}
