use vstd::prelude::*;

use crate::code::{code_text, code_to_text};
use crate::model::{
    clone_metas, ClientMessage, Message, MessageView, PlayerStatus, RoomInfo, RoomInfoView,
    ServerMessage, ServerMessageView, UserId, UserJoined, UserJoinedView, UserLeft, UserLeftView,
    UserMeta, UserState,
};
use crate::registry::{
    broadcast_users, find_room, first_free, fresh_room, has_user, hosts_kept, joined_room,
    left_room, metas, state_users, with_time, RoomProviderError, RoomRegistry, RoomView,
};
use crate::relay::{message_step, room_of, Relay, RelayOutput, RelayView, PendingView};

verus! {

/// Why a connection could not be opened.
#[derive(Debug, Clone, Copy, PartialEq, Eq, Structural)]
pub enum RoomJoinError {
    RoomProviderError(RoomProviderError),
}

impl RoomJoinError {
    /// The HTTP status that answers the request: the client's mistake for a
    /// room that does not exist, the server's otherwise.
    pub fn status_code(&self) -> (r: u16)
        ensures
            r == (if *self == RoomJoinError::RoomProviderError(RoomProviderError::RoomDoesntExist) {
                400u16
            } else {
                500u16
            }),
    {
        match self {
            RoomJoinError::RoomProviderError(RoomProviderError::RoomDoesntExist) => 400,
            RoomJoinError::RoomProviderError(_) => 500,
        }
    }
}

/// One participant's connection: who it is, where, and its signaling state.
#[derive(Debug, PartialEq, Eq)]
pub struct Connection {
    pub user_id: UserId,
    /// The room's code.
    pub room: u32,
    /// The room's id as it is written.
    pub room_id: String,
    pub relay: Relay,
}

/// A connection that was let in, with the first message to send on it.
#[derive(Debug, PartialEq, Eq)]
pub struct Accepted {
    pub connection: Connection,
    pub greeting: Message,
}

/// What arrived on a participant's own connection, once decoded.
#[derive(Debug, PartialEq, Eq)]
pub enum Inbound {
    Message(Message),
    /// A payload that does not decode.
    Malformed,
    /// A frame that carries nothing for the room (text, ping, pong).
    Ignored,
    /// The participant closed the connection.
    Closed,
}

/// What the connection does after an inbound frame.
#[derive(Debug, PartialEq, Eq)]
pub enum Dispatch {
    /// Stop serving the connection.
    Close,
    /// Report a payload that did not decode, and go on.
    Malformed,
    /// Nothing to do.
    Ignored,
    /// The room took the participant's message and passed it to the others.
    Shared,
    /// A signaling step.
    Relay(RelayOutput),
}

/// Relies on uuid::Uuid::new_v4 for a random version-4 UUID, read as one
/// integer by Uuid::as_u128.
#[verifier::external_body]
fn fresh_user_id() -> (r: UserId) {
    uuid::Uuid::new_v4().as_u128()
}

/// A newcomer as the others see it: nothing picked to watch yet.
pub open spec fn fresh_meta(id: UserId, name: String) -> UserMeta {
    UserMeta { id: id, name: name, state: UserState::VideoNotSelected }
}

/// The room after `u` entered and the others were told.
pub open spec fn welcomed_room(r: RoomView, u: UserMeta) -> RoomView {
    let after = joined_room(r, u);
    RoomView {
        users: broadcast_users(
            after.users,
            MessageView::Server(
                ServerMessageView::UserJoined(
                    UserJoinedView {
                        new_user: u.id,
                        users: metas(after.users),
                        player_status: after.player_status,
                    },
                ),
            ),
            seq![u.id],
        ),
        ..after
    }
}

/// The rooms after a participant's connection ended: the host takes its room
/// with it; anyone else leaves, and the rest are told. A participant that is
/// not in the room changes nothing.
pub open spec fn farewell(m: Map<u32, RoomView>, c: u32, id: UserId) -> Map<u32, RoomView> {
    if !m.contains_key(c) || !has_user(m[c].users, id) {
        m
    } else if m[c].users[0].meta.id == id {
        m.remove(c)
    } else {
        let after = left_room(m[c], id);
        let notice = MessageView::Server(
            ServerMessageView::UserLeft(
                UserLeftView {
                    user_left: id,
                    users: metas(after.users),
                    player_status: after.player_status,
                },
            ),
        );
        m.insert(c, RoomView { users: broadcast_users(after.users, notice, seq![id]), ..after })
    }
}

/// What a participant's own chat or playback message does to its room.
pub open spec fn client_effect(r: RoomView, id: UserId, cm: ClientMessage) -> RoomView {
    match cm {
        ClientMessage::Chat(_) => r,
        ClientMessage::SelectedVideo(v) => RoomView {
            users: state_users(r.users, id, UserState::VideoSelected(v)),
            ..r
        },
        ClientMessage::Play(t) => RoomView { player_status: PlayerStatus::Playing(t), ..r },
        ClientMessage::Pause(t) => RoomView { player_status: PlayerStatus::Paused(t), ..r },
        ClientMessage::Seek(t) => RoomView { player_status: with_time(r.player_status, t), ..r },
        ClientMessage::Update(t) => RoomView { player_status: with_time(r.player_status, t), ..r },
    }
}

/// The room after it took the message and passed it on to everyone else.
pub open spec fn shared_room(r: RoomView, id: UserId, cm: ClientMessage) -> RoomView {
    let after = client_effect(r, id, cm);
    RoomView {
        users: broadcast_users(after.users, MessageView::Client(id, cm), seq![id]),
        ..after
    }
}

/// Opens a room for a host named `name`, under the first free code among the
/// draws, and greets the host with the room's id, the host alone as its
/// participant, and the initial playback state.
pub fn host_room(rooms: &mut RoomRegistry, name: String, draws: &Vec<u64>) -> (r: Result<
    Accepted,
    RoomJoinError,
>)
    requires
        old(rooms).wf(),
    ensures
        final(rooms).wf(),
        hosts_kept(old(rooms)@, final(rooms)@),
        match first_free(old(rooms)@, draws@, 0) {
            None => {
                &&& r == Err::<Accepted, RoomJoinError>(
                    RoomJoinError::RoomProviderError(RoomProviderError::KeyGenerationFailed),
                )
                &&& final(rooms)@ == old(rooms)@
            },
            Some(c) => {
                &&& r is Ok
                &&& ({
                    let acc = r->Ok_0;
                    let meta = fresh_meta(acc.connection.user_id, name);
                    &&& acc.connection.room == c
                    &&& acc.connection.room_id@ == code_text(c)
                    &&& acc.connection.relay@ == (RelayView {
                        session_id: None,
                        pending: PendingView::Idle,
                    })
                    &&& acc.greeting@ == MessageView::Server(
                        ServerMessageView::RoomCreated(
                            RoomInfoView {
                                room_id: code_text(c),
                                user_id: acc.connection.user_id,
                                users: seq![meta],
                                player_status: PlayerStatus::Paused(0),
                            },
                        ),
                    )
                    &&& final(rooms)@ == old(rooms)@.insert(c, fresh_room(meta))
                })
            },
        },
{
    let user_id = fresh_user_id();
    let meta = UserMeta { id: user_id, name: name, state: UserState::VideoNotSelected };
    let shown = meta.clone();
    match rooms.create_room(meta, draws) {
        Err(e) => Err(RoomJoinError::RoomProviderError(e)),
        Ok(code) => {
            proof {
                assert(rooms@.contains_key(code));
                assert(crate::registry::room_wf(rooms@[code]));
            }
            let room_id = code_to_text(code);
            let mut users: Vec<UserMeta> = Vec::new();
            users.push(shown);
            let info = RoomInfo {
                room_id: room_id.clone(),
                user_id: user_id,
                users: users,
                player_status: PlayerStatus::Paused(0),
            };
            assert(info@.users =~= seq![fresh_meta(user_id, name)]);
            Ok(
                Accepted {
                    connection: Connection {
                        user_id: user_id,
                        room: code,
                        room_id: room_id,
                        relay: Relay::new(),
                    },
                    greeting: Message::Server(ServerMessage::RoomCreated(info)),
                },
            )
        },
    }
}

/// Lets the participant `user_id`, named `name`, into the room that `room_id`
/// names, in either case. The newcomer is greeted with the room's id, everyone
/// in it (itself last) and the playback state; everyone else is told who came,
/// with the same list. A room that does not exist, or one that already has a
/// participant with that id, turns the request away.
pub fn join_room_as(rooms: &mut RoomRegistry, room_id: &str, user_id: UserId, name: String) -> (r:
    Result<Accepted, RoomJoinError>)
    requires
        old(rooms).wf(),
    ensures
        final(rooms).wf(),
        hosts_kept(old(rooms)@, final(rooms)@),
        match find_room(old(rooms)@, room_id@) {
            None => {
                &&& r == Err::<Accepted, RoomJoinError>(
                    RoomJoinError::RoomProviderError(RoomProviderError::RoomDoesntExist),
                )
                &&& final(rooms)@ == old(rooms)@
            },
            Some(c) => if has_user(old(rooms)@[c].users, user_id) {
                &&& r == Err::<Accepted, RoomJoinError>(
                    RoomJoinError::RoomProviderError(RoomProviderError::UserIdTaken),
                )
                &&& final(rooms)@ == old(rooms)@
            } else {
                let meta = fresh_meta(user_id, name);
                let after = joined_room(old(rooms)@[c], meta);
                &&& r is Ok
                &&& ({
                    let acc = r->Ok_0;
                    &&& acc.connection.user_id == user_id
                    &&& acc.connection.room == c
                    &&& acc.connection.room_id@ == code_text(c)
                    &&& acc.connection.relay@ == (RelayView {
                        session_id: None,
                        pending: PendingView::Idle,
                    })
                    &&& acc.greeting@ == MessageView::Server(
                        ServerMessageView::RoomJoined(
                            RoomInfoView {
                                room_id: code_text(c),
                                user_id: user_id,
                                users: metas(after.users),
                                player_status: after.player_status,
                            },
                        ),
                    )
                    &&& final(rooms)@ == old(rooms)@.insert(c, welcomed_room(old(rooms)@[c], meta))
                })
            },
        },
{
    let code = match rooms.find(room_id) {
        Some(c) => c,
        None => return Err(RoomJoinError::RoomProviderError(RoomProviderError::RoomDoesntExist)),
    };
    let meta = UserMeta { id: user_id, name: name, state: UserState::VideoNotSelected };
    let info = match rooms.join_room(room_id, meta) {
        Err(e) => return Err(RoomJoinError::RoomProviderError(e)),
        Ok(info) => info,
    };
    let ghost mid = rooms@;
    let news = Message::Server(
        ServerMessage::UserJoined(
            UserJoined {
                new_user: user_id,
                users: clone_metas(&info.users),
                player_status: info.player_status,
            },
        ),
    );
    let mut excluded: Vec<UserId> = Vec::new();
    excluded.push(user_id);
    assert(excluded@ =~= seq![user_id]);
    rooms.broadcast_excluding(code, &news, &excluded);
    proof {
        assert(mid.contains_key(code));
        assert(mid.insert(code, welcomed_room(old(rooms)@[code], fresh_meta(user_id, name))) =~= rooms@);
    }
    let shown_id = info.room_id.clone();
    Ok(
        Accepted {
            connection: Connection {
                user_id: user_id,
                room: code,
                room_id: shown_id,
                relay: Relay::new(),
            },
            greeting: Message::Server(ServerMessage::RoomJoined(info)),
        },
    )
}

/// Lets a participant named `name` into the room that `room_id` names, under a
/// freshly drawn id; see `join_room_as`.
pub fn join_room(rooms: &mut RoomRegistry, room_id: &str, name: String) -> (r: Result<
    Accepted,
    RoomJoinError,
>)
    requires
        old(rooms).wf(),
    ensures
        final(rooms).wf(),
        hosts_kept(old(rooms)@, final(rooms)@),
        match find_room(old(rooms)@, room_id@) {
            None => {
                &&& r == Err::<Accepted, RoomJoinError>(
                    RoomJoinError::RoomProviderError(RoomProviderError::RoomDoesntExist),
                )
                &&& final(rooms)@ == old(rooms)@
            },
            Some(c) => match r {
                Err(e) => {
                    &&& e == RoomJoinError::RoomProviderError(RoomProviderError::UserIdTaken)
                    &&& final(rooms)@ == old(rooms)@
                },
                Ok(acc) => {
                    let meta = fresh_meta(acc.connection.user_id, name);
                    let after = joined_room(old(rooms)@[c], meta);
                    &&& !has_user(old(rooms)@[c].users, acc.connection.user_id)
                    &&& acc.connection.room == c
                    &&& acc.connection.room_id@ == code_text(c)
                    &&& acc.connection.relay@ == (RelayView {
                        session_id: None,
                        pending: PendingView::Idle,
                    })
                    &&& acc.greeting@ == MessageView::Server(
                        ServerMessageView::RoomJoined(
                            RoomInfoView {
                                room_id: code_text(c),
                                user_id: acc.connection.user_id,
                                users: metas(after.users),
                                player_status: after.player_status,
                            },
                        ),
                    )
                    &&& final(rooms)@ == old(rooms)@.insert(c, welcomed_room(old(rooms)@[c], meta))
                },
            },
        },
{
    let user_id = fresh_user_id();
    join_room_as(rooms, room_id, user_id, name)
}

/// Ends a participant's connection: it leaves its room, and the others are
/// told who left, who remains and the playback state. A host closes its room.
pub fn leave_room(rooms: &mut RoomRegistry, conn: &Connection)
    requires
        old(rooms).wf(),
    ensures
        final(rooms).wf(),
        hosts_kept(old(rooms)@, final(rooms)@),
        final(rooms)@ == farewell(old(rooms)@, conn.room, conn.user_id),
{
    let id = conn.user_id;
    if !rooms.has_member(conn.room, id) {
        return;
    }
    let remaining = rooms.remove_user(conn.room, id);
    let ghost mid = rooms@;
    match remaining {
        None => {},
        Some(users) => match rooms.player_status(conn.room) {
            None => {},
            Some(status) => {
                let news = Message::Server(
                    ServerMessage::UserLeft(UserLeft { user_left: id, users, player_status: status }),
                );
                let mut excluded: Vec<UserId> = Vec::new();
                excluded.push(id);
                assert(excluded@ =~= seq![id]);
                rooms.broadcast_excluding(conn.room, &news, &excluded);
            },
        },
    }
    proof {
        let m = old(rooms)@;
        let c = conn.room;
        if m[c].users[0].meta.id != id {
            assert(mid.contains_key(c));
            assert(rooms@ =~= farewell(m, c, id));
        }
    }
}

/// Handles one frame from the participant's own connection. A chat or
/// playback message that the participant sent as itself updates the room and
/// goes to everyone else in it; a signaling message goes to the relay; a
/// message claiming another sender, or one that only a server sends, is
/// ignored; a close ends the connection.
pub fn handle_message(conn: &mut Connection, rooms: &mut RoomRegistry, frame: Inbound) -> (out:
    Dispatch)
    requires
        old(rooms).wf(),
    ensures
        final(rooms).wf(),
        hosts_kept(old(rooms)@, final(rooms)@),
        final(conn).user_id == old(conn).user_id,
        final(conn).room == old(conn).room,
        final(conn).room_id == old(conn).room_id,
        match frame {
            Inbound::Closed => out == Dispatch::Close && final(rooms)@ == old(rooms)@ && *final(conn)
                == *old(conn),
            Inbound::Malformed => out == Dispatch::Malformed && final(rooms)@ == old(rooms)@
                && *final(conn) == *old(conn),
            Inbound::Ignored => out == Dispatch::Ignored && final(rooms)@ == old(rooms)@ && *final(conn)
                == *old(conn),
            Inbound::Message(Message::Server(_)) => out == Dispatch::Ignored && final(rooms)@ == old(
                rooms)@ && *final(conn) == *old(conn),
            Inbound::Message(Message::Client(sender, cm)) => if sender == old(conn).user_id {
                &&& out == Dispatch::Shared
                &&& *final(conn) == *old(conn)
                &&& final(rooms)@ == if old(rooms)@.contains_key(old(conn).room) {
                    old(rooms)@.insert(
                        old(conn).room,
                        shared_room(old(rooms)@[old(conn).room], sender, cm),
                    )
                } else {
                    old(rooms)@
                }
            } else {
                out == Dispatch::Ignored && final(rooms)@ == old(rooms)@ && *final(conn) == *old(conn)
            },
            Inbound::Message(Message::Relay(m)) => {
                &&& final(rooms)@ == old(rooms)@
                &&& out matches Dispatch::Relay(o) && (final(conn).relay@, o@) == message_step(
                    old(conn).relay@,
                    room_of(old(rooms)@, old(conn).room),
                    m@,
                )
            },
        },
{
    match frame {
        Inbound::Closed => Dispatch::Close,
        Inbound::Malformed => Dispatch::Malformed,
        Inbound::Ignored => Dispatch::Ignored,
        Inbound::Message(Message::Server(_)) => Dispatch::Ignored,
        Inbound::Message(Message::Relay(m)) => Dispatch::Relay(
            conn.relay.on_message(rooms, conn.room, m),
        ),
        Inbound::Message(Message::Client(sender, cm)) => {
            if sender != conn.user_id {
                return Dispatch::Ignored;
            }
            let code = conn.room;
            let ghost m0 = rooms@;
            match &cm {
                ClientMessage::Chat(_) => {},
                ClientMessage::SelectedVideo(v) => {
                    rooms.set_user_state(code, sender, UserState::VideoSelected(v.clone()));
                },
                ClientMessage::Play(t) => {
                    rooms.set_player_status(code, PlayerStatus::Playing(*t));
                },
                ClientMessage::Pause(t) => {
                    rooms.set_player_status(code, PlayerStatus::Paused(*t));
                },
                ClientMessage::Seek(t) => {
                    rooms.set_playback_time(code, *t);
                },
                ClientMessage::Update(t) => {
                    rooms.set_playback_time(code, *t);
                },
            }
            let ghost m1 = rooms@;
            let mut excluded: Vec<UserId> = Vec::new();
            excluded.push(sender);
            assert(excluded@ =~= seq![sender]);
            let msg = Message::Client(sender, cm);
            rooms.broadcast_excluding(code, &msg, &excluded);
            proof {
                if m0.contains_key(code) {
                    assert(m1 == m0.insert(code, client_effect(m0[code], sender, cm)));
                    assert(m1.contains_key(code));
                    assert(rooms@ =~= m0.insert(code, shared_room(m0[code], sender, cm)));
                }
            }
            Dispatch::Shared
        },
    }
}

} // verus!
