use std::collections::HashMap;
use vstd::prelude::*;

use crate::code::{code_from_text, code_named, code_text, code_to_text, CODE_SPACE};
use crate::model::{
    Message, MessageView, PlayerStatus, PublishSession, PublishSessionView, RoomInfo, UserId,
    UserMeta, UserState,
};

verus! {

/// How many undelivered messages a participant's outbox holds; what arrives
/// while it is full is dropped for that participant.
pub const OUTBOX_CAPACITY: usize = 10;

/// How many candidate codes room creation tries before it gives up.
pub const MAX_CODE_ATTEMPTS: usize = 8;

#[derive(Debug, Clone, Copy, PartialEq, Eq, Structural)]
pub enum RoomProviderError {
    /// Every candidate code was already taken.
    KeyGenerationFailed,
    /// No live room has the given id.
    RoomDoesntExist,
    /// The room already has a participant with the given id.
    UserIdTaken,
}

/// A participant in a room, with the messages waiting to be sent to it.
pub struct User {
    pub meta: UserMeta,
    pub outbox: Vec<Message>,
}

/// A participant, as a value.
pub struct UserView {
    pub meta: UserMeta,
    pub outbox: Seq<MessageView>,
}

impl View for User {
    type V = UserView;

    open spec fn view(&self) -> UserView {
        UserView { meta: self.meta, outbox: self.outbox@.map_values(|m: Message| m@) }
    }
}

/// One room: its participants, host first, its playback and the host's media.
pub struct Room {
    pub users: Vec<User>,
    pub player_status: PlayerStatus,
    pub publish: Option<PublishSession>,
}

/// A room, as a value.
pub struct RoomView {
    pub users: Seq<UserView>,
    pub player_status: PlayerStatus,
    pub publish: Option<PublishSessionView>,
}

/// The host's published media, as a value.
pub open spec fn publish_view(p: Option<PublishSession>) -> Option<PublishSessionView> {
    match p {
        Some(s) => Some(s@),
        None => None,
    }
}

impl View for Room {
    type V = RoomView;

    open spec fn view(&self) -> RoomView {
        RoomView {
            users: self.users@.map_values(|u: User| u@),
            player_status: self.player_status,
            publish: publish_view(self.publish),
        }
    }
}

/// A room is well formed when it has a host, no id twice and no outbox over
/// its capacity.
pub open spec fn room_wf(r: RoomView) -> bool {
    &&& r.users.len() >= 1
    &&& forall|i: int, j: int|
        0 <= i < r.users.len() && 0 <= j < r.users.len() && i != j ==> r.users[i].meta.id
            != r.users[j].meta.id
    &&& forall|i: int| 0 <= i < r.users.len() ==> r.users[i].outbox.len() <= OUTBOX_CAPACITY
}

/// Every live room is well formed and has a code that can be written.
pub open spec fn registry_wf(m: Map<u32, RoomView>) -> bool {
    forall|c: u32| m.contains_key(c) ==> c < CODE_SPACE && room_wf(#[trigger] m[c])
}

/// The code, when a room with that code is live.
pub open spec fn live(m: Map<u32, RoomView>, c: u32) -> Option<u32> {
    if m.contains_key(c) {
        Some(c)
    } else {
        None
    }
}

/// The live room that a text id names, read without regard to case.
pub open spec fn find_room(m: Map<u32, RoomView>, id: Seq<char>) -> Option<u32> {
    match code_named(id) {
        Some(c) => live(m, c),
        None => None,
    }
}

/// The participants as the others see them.
pub open spec fn metas(users: Seq<UserView>) -> Seq<UserMeta> {
    users.map_values(|u: UserView| u.meta)
}

/// Whether a participant with the given id is present.
pub open spec fn has_user(users: Seq<UserView>, id: UserId) -> bool {
    exists|i: int| 0 <= i < users.len() && users[i].meta.id == id
}

/// Where the participant with the given id stands; ids are unique in a
/// well-formed room.
pub open spec fn user_position(users: Seq<UserView>, id: UserId) -> int {
    choose|i: int| 0 <= i < users.len() && users[i].meta.id == id
}

/// A message handed to one outbox: appended, unless the outbox is full.
pub open spec fn deliver(q: Seq<MessageView>, m: MessageView) -> Seq<MessageView> {
    if q.len() < OUTBOX_CAPACITY {
        q.push(m)
    } else {
        q
    }
}

/// Every participant but the excluded ones gets the message.
pub open spec fn broadcast_users(users: Seq<UserView>, m: MessageView, excluded: Seq<UserId>) -> Seq<
    UserView,
> {
    Seq::new(
        users.len(),
        |i: int|
            if excluded.contains(users[i].meta.id) {
                users[i]
            } else {
                UserView { meta: users[i].meta, outbox: deliver(users[i].outbox, m) }
            },
    )
}

/// The participant with the given id gets the message.
pub open spec fn send_users(users: Seq<UserView>, m: MessageView, id: UserId) -> Seq<UserView> {
    Seq::new(
        users.len(),
        |i: int|
            if users[i].meta.id == id {
                UserView { meta: users[i].meta, outbox: deliver(users[i].outbox, m) }
            } else {
                users[i]
            },
    )
}

/// A new room holding its host alone.
pub open spec fn fresh_room(host: UserMeta) -> RoomView {
    RoomView {
        users: seq![UserView { meta: host, outbox: Seq::empty() }],
        player_status: PlayerStatus::Paused(0),
        publish: None,
    }
}

/// The code that a random draw proposes.
pub open spec fn candidate(d: u64) -> u32 {
    (d % (CODE_SPACE as u64)) as u32
}

/// The first free code among the draws from position `i` on, within the attempt bound.
pub open spec fn first_free(m: Map<u32, RoomView>, draws: Seq<u64>, i: int) -> Option<u32>
    decreases MAX_CODE_ATTEMPTS - i,
{
    if i < 0 || i >= MAX_CODE_ATTEMPTS || i >= draws.len() {
        None
    } else if !m.contains_key(candidate(draws[i])) {
        Some(candidate(draws[i]))
    } else {
        first_free(m, draws, i + 1)
    }
}

/// Each room that is live before and after keeps the same host.
pub open spec fn hosts_kept(before: Map<u32, RoomView>, after: Map<u32, RoomView>) -> bool {
    forall|c: u32|
        before.contains_key(c) && after.contains_key(c) ==> (#[trigger] after[c]).users[0].meta.id
            == before[c].users[0].meta.id
}

impl Room {
    /// Hands a copy of `msg` to the outbox of the participant at `i`.
    fn deliver_at(&mut self, i: usize, msg: &Message)
        requires
            i < old(self).users@.len(),
        ensures
            final(self)@ == (RoomView {
                users: old(self)@.users.update(
                    i as int,
                    UserView {
                        meta: old(self)@.users[i as int].meta,
                        outbox: deliver(old(self)@.users[i as int].outbox, msg@),
                    },
                ),
                ..old(self)@
            }),
    {
        let ghost before = self.users[i as int].outbox@;
        if self.users[i].outbox.len() < OUTBOX_CAPACITY {
            self.users[i].outbox.push(msg.clone());
            assert(self.users[i as int].outbox@.map_values(|m: Message| m@) =~= before.map_values(
                |m: Message| m@,
            ).push(msg@));
        }
        assert(self@.users =~= old(self)@.users.update(
            i as int,
            UserView {
                meta: old(self)@.users[i as int].meta,
                outbox: deliver(old(self)@.users[i as int].outbox, msg@),
            },
        ));
    }

    /// Whether `ids` holds `id`.
    fn listed(ids: &Vec<UserId>, id: UserId) -> (r: bool)
        ensures
            r == ids@.contains(id),
    {
        let mut i: usize = 0;
        while i < ids.len()
            invariant
                i <= ids@.len(),
                forall|j: int| 0 <= j < i ==> ids@[j] != id,
            decreases ids@.len() - i,
        {
            if ids[i] == id {
                return true;
            }
            i = i + 1;
        }
        false
    }

    /// Where the participant with the given id stands, if it is in the room.
    pub fn position(&self, id: UserId) -> (r: Option<usize>)
        requires
            room_wf(self@),
        ensures
            match r {
                Some(i) => i < self@.users.len() && self@.users[i as int].meta.id == id
                    && user_position(self@.users, id) == i,
                None => !has_user(self@.users, id),
            },
    {
        let mut i: usize = 0;
        while i < self.users.len()
            invariant
                room_wf(self@),
                i <= self@.users.len(),
                forall|j: int| 0 <= j < i ==> self@.users[j].meta.id != id,
            decreases self@.users.len() - i,
        {
            if self.users[i].meta.id == id {
                assert(self@.users[i as int].meta.id == id);
                let ghost p = user_position(self@.users, id);
                assert(0 <= p < self@.users.len() && self@.users[p].meta.id == id);
                return Some(i);
            }
            i = i + 1;
        }
        None
    }

    /// The participants as the others see them, host first.
    pub fn user_metas(&self) -> (r: Vec<UserMeta>)
        ensures
            r@ == metas(self@.users),
    {
        let mut r: Vec<UserMeta> = Vec::new();
        let mut i: usize = 0;
        while i < self.users.len()
            invariant
                i <= self@.users.len(),
                r@ == metas(self@.users).subrange(0, i as int),
            decreases self@.users.len() - i,
        {
            r.push(self.users[i].meta.clone());
            assert(r@ =~= metas(self@.users).subrange(0, i + 1));
            i = i + 1;
        }
        assert(r@ =~= metas(self@.users));
        r
    }

    /// Hands a copy of `msg` to every participant whose id is not in `excluded`.
    pub fn broadcast_excluding(&mut self, msg: &Message, excluded: &Vec<UserId>)
        ensures
            final(self)@ == (RoomView {
                users: broadcast_users(old(self)@.users, msg@, excluded@),
                ..old(self)@
            }),
    {
        let n = self.users.len();
        let mut i: usize = 0;
        while i < n
            invariant
                n == old(self)@.users.len(),
                i <= n,
                self@.users.len() == n,
                self@.player_status == old(self)@.player_status,
                self@.publish == old(self)@.publish,
                forall|j: int|
                    0 <= j < i ==> self@.users[j] == broadcast_users(
                        old(self)@.users,
                        msg@,
                        excluded@,
                    )[j],
                forall|j: int| i <= j < n ==> self@.users[j] == old(self)@.users[j],
            decreases n - i,
        {
            if !Self::listed(excluded, self.users[i].meta.id) {
                self.deliver_at(i, msg);
            }
            i = i + 1;
        }
        assert(self@.users =~= broadcast_users(old(self)@.users, msg@, excluded@));
    }

    /// Hands a copy of `msg` to the participant with the given id.
    pub fn send_to_user(&mut self, id: UserId, msg: &Message)
        ensures
            final(self)@ == (RoomView { users: send_users(old(self)@.users, msg@, id), ..old(self)@ }),
    {
        let n = self.users.len();
        let mut i: usize = 0;
        while i < n
            invariant
                n == old(self)@.users.len(),
                i <= n,
                self@.users.len() == n,
                self@.player_status == old(self)@.player_status,
                self@.publish == old(self)@.publish,
                forall|j: int|
                    0 <= j < i ==> self@.users[j] == send_users(old(self)@.users, msg@, id)[j],
                forall|j: int| i <= j < n ==> self@.users[j] == old(self)@.users[j],
            decreases n - i,
        {
            if self.users[i].meta.id == id {
                self.deliver_at(i, msg);
            }
            i = i + 1;
        }
        assert(self@.users =~= send_users(old(self)@.users, msg@, id));
    }
}

/// The same playback state at another position.
pub open spec fn with_time(s: PlayerStatus, t: u64) -> PlayerStatus {
    match s {
        PlayerStatus::Playing(_) => PlayerStatus::Playing(t),
        PlayerStatus::Paused(_) => PlayerStatus::Paused(t),
    }
}

/// The participant with the given id has picked something else to watch.
pub open spec fn state_users(users: Seq<UserView>, id: UserId, state: UserState) -> Seq<UserView> {
    Seq::new(
        users.len(),
        |i: int|
            if users[i].meta.id == id {
                UserView { meta: UserMeta { state: state, ..users[i].meta }, outbox: users[i].outbox }
            } else {
                users[i]
            },
    )
}

/// The room after `u` entered it, last in line and with nothing to read yet.
pub open spec fn joined_room(r: RoomView, u: UserMeta) -> RoomView {
    RoomView { users: r.users.push(UserView { meta: u, outbox: Seq::empty() }), ..r }
}

/// The room after the participant with the given id left it.
pub open spec fn left_room(r: RoomView, id: UserId) -> RoomView {
    RoomView { users: r.users.remove(user_position(r.users, id)), ..r }
}

proof fn lemma_replace_room(m: Map<u32, RoomView>, c: u32, r: RoomView)
    requires
        registry_wf(m),
        m.contains_key(c),
        room_wf(r),
        r.users[0].meta.id == m[c].users[0].meta.id,
    ensures
        registry_wf(m.insert(c, r)),
        hosts_kept(m, m.insert(c, r)),
{
    assert forall|k: u32| #[trigger] m.insert(c, r).contains_key(k) implies k < CODE_SPACE
        && room_wf(m.insert(c, r)[k]) by {
        if k != c {
            assert(m.contains_key(k));
            assert(room_wf(m[k]));
            assert(m.insert(c, r)[k] == m[k]);
        } else {
            assert(m.insert(c, r)[k] == r);
            assert(room_wf(m[c]));
        }
    }
}

proof fn lemma_drop_room(m: Map<u32, RoomView>, c: u32)
    requires
        registry_wf(m),
    ensures
        registry_wf(m.remove(c)),
        hosts_kept(m, m.remove(c)),
{
    assert forall|k: u32| #[trigger] m.remove(c).contains_key(k) implies k < CODE_SPACE
        && room_wf(m.remove(c)[k]) by {
        assert(m.contains_key(k));
        assert(room_wf(m[k]));
        assert(m.remove(c)[k] == m[k]);
    }
}

/// All live rooms, keyed by their code.
pub struct RoomRegistry {
    rooms: HashMap<u32, Room>,
}

impl View for RoomRegistry {
    type V = Map<u32, RoomView>;

    closed spec fn view(&self) -> Map<u32, RoomView> {
        self.rooms@.map_values(|r: Room| r@)
    }
}

impl RoomRegistry {
    pub open spec fn wf(&self) -> bool {
        registry_wf(self@)
    }

    pub fn new() -> (r: RoomRegistry)
        ensures
            r@ == Map::<u32, RoomView>::empty(),
            r.wf(),
    {
        let r = RoomRegistry { rooms: HashMap::new() };
        assert(r@ =~= Map::<u32, RoomView>::empty());
        r
    }

    fn live_code(&self, code: u32) -> (r: Option<u32>)
        ensures
            r == live(self@, code),
    {
        if self.rooms.contains_key(&code) {
            Some(code)
        } else {
            None
        }
    }

    /// The code of the live room that `room_id` names, read without regard
    /// to case.
    pub fn find(&self, room_id: &str) -> (r: Option<u32>)
        ensures
            r == find_room(self@, room_id@),
    {
        match code_from_text(room_id) {
            Some(c) => {
                if self.rooms.contains_key(&c) {
                    Some(c)
                } else {
                    None
                }
            },
            None => None,
        }
    }

    /// Read access to one room.
    pub fn room(&self, code: u32) -> (r: Option<&Room>)
        ensures
            match live(self@, code) {
                Some(c) => r matches Some(room) && room@ == self@[c],
                None => r is None,
            },
    {
        match self.live_code(code) {
            Some(c) => self.rooms.get(&c),
            None => None,
        }
    }

    /// Opens a room with `host` as its only participant, under the first code
    /// among the draws that no live room uses, trying at most
    /// `MAX_CODE_ATTEMPTS` of them. Returns the room's code.
    pub fn create_room(&mut self, host: UserMeta, draws: &Vec<u64>) -> (r: Result<
        u32,
        RoomProviderError,
    >)
        requires
            old(self).wf(),
        ensures
            final(self).wf(),
            hosts_kept(old(self)@, final(self)@),
            match first_free(old(self)@, draws@, 0) {
                Some(c) => {
                    &&& r == Ok::<u32, RoomProviderError>(c)
                    &&& !old(self)@.contains_key(c)
                    &&& final(self)@ == old(self)@.insert(c, fresh_room(host))
                },
                None => {
                    &&& r == Err::<u32, RoomProviderError>(RoomProviderError::KeyGenerationFailed)
                    &&& final(self)@ == old(self)@
                },
            },
    {
        let mut i: usize = 0;
        while i < draws.len() && i < MAX_CODE_ATTEMPTS
            invariant
                i <= MAX_CODE_ATTEMPTS,
                self@ == old(self)@,
                registry_wf(self@),
                first_free(self@, draws@, 0) == first_free(self@, draws@, i as int),
            decreases MAX_CODE_ATTEMPTS - i,
        {
            let c = (draws[i] % (CODE_SPACE as u64)) as u32;
            if !self.rooms.contains_key(&c) {
                let mut users: Vec<User> = Vec::new();
                let first = User { meta: host, outbox: Vec::new() };
                assert(first@.outbox =~= Seq::<MessageView>::empty());
                users.push(first);
                let room = Room { users, player_status: PlayerStatus::Paused(0), publish: None };
                assert(room@.users =~= fresh_room(host).users);
                assert(room@ == fresh_room(host));
                self.rooms.insert(c, room);
                assert(self@ =~= old(self)@.insert(c, fresh_room(host)));
                assert(room_wf(fresh_room(host)));
                assert forall|k: u32| #[trigger] self@.contains_key(k) implies k < CODE_SPACE
                    && room_wf(self@[k]) by {
                    if k != c {
                        assert(old(self)@.contains_key(k));
                    } else {
                        assert(k < CODE_SPACE);
                        assert(self@[k] == fresh_room(host));
                    }
                }
                return Ok(c);
            }
            i = i + 1;
        }
        Err(RoomProviderError::KeyGenerationFailed)
    }

    /// Adds `user` at the end of the room that `room_id` names and returns what
    /// the newcomer learns: the room's id, its own id, everyone in the room
    /// (itself last) and the playback state.
    pub fn join_room(&mut self, room_id: &str, user: UserMeta) -> (r: Result<
        RoomInfo,
        RoomProviderError,
    >)
        requires
            old(self).wf(),
        ensures
            final(self).wf(),
            hosts_kept(old(self)@, final(self)@),
            match find_room(old(self)@, room_id@) {
                None => {
                    &&& r == Err::<RoomInfo, RoomProviderError>(RoomProviderError::RoomDoesntExist)
                    &&& final(self)@ == old(self)@
                },
                Some(c) => if has_user(old(self)@[c].users, user.id) {
                    &&& r == Err::<RoomInfo, RoomProviderError>(RoomProviderError::UserIdTaken)
                    &&& final(self)@ == old(self)@
                } else {
                    let after = joined_room(old(self)@[c], user);
                    &&& r matches Ok(info) && info.room_id@ == code_text(c) && info.user_id == user.id
                        && info.users@ == metas(after.users) && info.player_status
                        == after.player_status
                    &&& final(self)@ == old(self)@.insert(c, after)
                },
            },
    {
        let c = match self.find(room_id) {
            Some(c) => c,
            None => return Err(RoomProviderError::RoomDoesntExist),
        };
        let mut room = self.rooms.remove(&c).unwrap();
        assert(room@ == old(self)@[c]);
        if room.position(user.id).is_some() {
            self.rooms.insert(c, room);
            assert(self@ =~= old(self)@);
            return Err(RoomProviderError::UserIdTaken);
        }
        let id = user.id;
        let newcomer = User { meta: user, outbox: Vec::new() };
        assert(newcomer@.outbox =~= Seq::<MessageView>::empty());
        room.users.push(newcomer);
        let ghost after = joined_room(old(self)@[c], user);
        assert(room@.users =~= after.users);
        assert(room@ == after);
        proof {
            let old_users = old(self)@[c].users;
            assert forall|i: int, j: int|
                0 <= i < after.users.len() && 0 <= j < after.users.len() && i != j implies after.users[i].meta.id
                != after.users[j].meta.id by {
                if i == old_users.len() as int {
                    assert(!(0 <= j < old_users.len() && old_users[j].meta.id == id));
                } else if j == old_users.len() as int {
                    assert(!(0 <= i < old_users.len() && old_users[i].meta.id == id));
                }
            }
            lemma_replace_room(old(self)@, c, after);
        }
        let info = RoomInfo {
            room_id: code_to_text(c),
            user_id: id,
            users: room.user_metas(),
            player_status: room.player_status,
        };
        self.rooms.insert(c, room);
        assert(self@ =~= old(self)@.insert(c, after));
        Ok(info)
    }

    /// Whether the room with the given code is live and has a participant with
    /// the given id.
    pub fn has_member(&self, code: u32, id: UserId) -> (r: bool)
        requires
            self.wf(),
        ensures
            r == (self@.contains_key(code) && has_user(self@[code].users, id)),
    {
        match self.room(code) {
            Some(room) => {
                proof {
                    assert(room_wf(self@[code]));
                }
                room.position(id).is_some()
            },
            None => false,
        }
    }

    /// The participants of a room as the others see them, host first.
    pub fn room_users(&self, code: u32) -> (r: Option<Vec<UserMeta>>)
        ensures
            match live(self@, code) {
                Some(c) => r matches Some(v) && v@ == metas(self@[c].users),
                None => r is None,
            },
    {
        match self.room(code) {
            Some(room) => Some(room.user_metas()),
            None => None,
        }
    }

    /// The playback state of a room.
    pub fn player_status(&self, code: u32) -> (r: Option<PlayerStatus>)
        ensures
            match live(self@, code) {
                Some(c) => r == Some(self@[c].player_status),
                None => r is None,
            },
    {
        match self.room(code) {
            Some(room) => Some(room.player_status),
            None => None,
        }
    }

    /// Sets a room's playback state; false when the room is gone.
    pub fn set_player_status(&mut self, code: u32, status: PlayerStatus) -> (r: bool)
        requires
            old(self).wf(),
        ensures
            final(self).wf(),
            hosts_kept(old(self)@, final(self)@),
            match live(old(self)@, code) {
                Some(c) => r && final(self)@ == old(self)@.insert(
                    c,
                    RoomView { player_status: status, ..old(self)@[c] },
                ),
                None => !r && final(self)@ == old(self)@,
            },
    {
        let c = match self.live_code(code) {
            Some(c) => c,
            None => return false,
        };
        let mut room = self.rooms.remove(&c).unwrap();
        room.player_status = status;
        proof {
            lemma_replace_room(old(self)@, c, room@);
        }
        self.rooms.insert(c, room);
        assert(self@ =~= old(self)@.insert(c, RoomView { player_status: status, ..old(self)@[c] }));
        true
    }

    /// Moves a room's playback to position `t`, playing or paused as it was;
    /// false when the room is gone.
    pub fn set_playback_time(&mut self, code: u32, t: u64) -> (r: bool)
        requires
            old(self).wf(),
        ensures
            final(self).wf(),
            hosts_kept(old(self)@, final(self)@),
            match live(old(self)@, code) {
                Some(c) => r && final(self)@ == old(self)@.insert(
                    c,
                    RoomView { player_status: with_time(old(self)@[c].player_status, t), ..old(self)@[c] },
                ),
                None => !r && final(self)@ == old(self)@,
            },
    {
        let status = match self.player_status(code) {
            Some(PlayerStatus::Playing(_)) => PlayerStatus::Playing(t),
            Some(PlayerStatus::Paused(_)) => PlayerStatus::Paused(t),
            None => return false,
        };
        self.set_player_status(code, status)
    }

    /// Records what the participant with the given id picked to watch; false
    /// when the room is gone.
    pub fn set_user_state(&mut self, code: u32, id: UserId, state: UserState) -> (r: bool)
        requires
            old(self).wf(),
        ensures
            final(self).wf(),
            hosts_kept(old(self)@, final(self)@),
            match live(old(self)@, code) {
                Some(c) => r && final(self)@ == old(self)@.insert(
                    c,
                    RoomView { users: state_users(old(self)@[c].users, id, state), ..old(self)@[c] },
                ),
                None => !r && final(self)@ == old(self)@,
            },
    {
        let c = match self.live_code(code) {
            Some(c) => c,
            None => return false,
        };
        let mut room = self.rooms.remove(&c).unwrap();
        let ghost before = room@;
        assert(before == old(self)@[c]);
        match room.position(id) {
            Some(i) => {
                let ghost target = state_users(before.users, id, state);
                room.users[i].meta.state = state;
                assert forall|j: int| 0 <= j < before.users.len() && j != i implies before.users[j].meta.id != id by {
                    assert(before.users[i as int].meta.id == id);
                }
                assert(room@.users =~= target);
            },
            None => {
                assert(room@.users =~= state_users(before.users, id, state));
            },
        }
        proof {
            lemma_replace_room(old(self)@, c, room@);
        }
        self.rooms.insert(c, room);
        assert(self@ =~= old(self)@.insert(
            c,
            RoomView { users: state_users(old(self)@[c].users, id, state), ..old(self)@[c] },
        ));
        true
    }

    /// Records the host's published media, once: true when the room had none
    /// and now has `session`; false, with nothing changed, when the room is gone
    /// or already has one.
    pub fn set_publish_session(&mut self, code: u32, session: PublishSession) -> (r: bool)
        requires
            old(self).wf(),
        ensures
            final(self).wf(),
            hosts_kept(old(self)@, final(self)@),
            match live(old(self)@, code) {
                Some(c) => if old(self)@[c].publish is None {
                    r && final(self)@ == old(self)@.insert(
                        c,
                        RoomView { publish: Some(session@), ..old(self)@[c] },
                    )
                } else {
                    !r && final(self)@ == old(self)@
                },
                None => !r && final(self)@ == old(self)@,
            },
    {
        let c = match self.live_code(code) {
            Some(c) => c,
            None => return false,
        };
        let mut room = self.rooms.remove(&c).unwrap();
        if room.publish.is_some() {
            self.rooms.insert(c, room);
            assert(self@ =~= old(self)@);
            return false;
        }
        room.publish = Some(session);
        proof {
            lemma_replace_room(old(self)@, c, room@);
        }
        self.rooms.insert(c, room);
        assert(self@ =~= old(self)@.insert(c, RoomView { publish: Some(session@), ..old(self)@[c] }));
        true
    }

    /// Takes the participant with the given id out of its room. When that is
    /// the host the room closes with it and `None` comes back, as it does when
    /// the room is already gone; otherwise the remaining participants come back.
    pub fn remove_user(&mut self, code: u32, id: UserId) -> (r: Option<Vec<UserMeta>>)
        requires
            old(self).wf(),
        ensures
            final(self).wf(),
            hosts_kept(old(self)@, final(self)@),
            match live(old(self)@, code) {
                None => r is None && final(self)@ == old(self)@,
                Some(c) => if old(self)@[c].users[0].meta.id == id {
                    r is None && final(self)@ == old(self)@.remove(c)
                } else if has_user(old(self)@[c].users, id) {
                    let after = left_room(old(self)@[c], id);
                    &&& r matches Some(v) && v@ == metas(after.users)
                    &&& final(self)@ == old(self)@.insert(c, after)
                } else {
                    &&& r matches Some(v) && v@ == metas(old(self)@[c].users)
                    &&& final(self)@ == old(self)@
                },
            },
    {
        let c = match self.live_code(code) {
            Some(c) => c,
            None => return None,
        };
        let mut room = self.rooms.remove(&c).unwrap();
        let ghost before = room@;
        assert(before == old(self)@[c]);
        match room.position(id) {
            None => {
                let v = room.user_metas();
                self.rooms.insert(c, room);
                assert(self@ =~= old(self)@);
                Some(v)
            },
            Some(i) => {
                if i == 0 {
                    proof {
                        lemma_drop_room(old(self)@, c);
                    }
                    assert(self@ =~= old(self)@.remove(c));
                    return None;
                }
                let _gone = room.users.remove(i);
                let ghost after = left_room(before, id);
                assert(room@.users =~= after.users);
                assert(room@ == after);
                proof {
                    assert forall|a: int, b: int|
                        0 <= a < after.users.len() && 0 <= b < after.users.len() && a != b implies after.users[a].meta.id
                        != after.users[b].meta.id by {
                        let a0 = if a < i { a } else { a + 1 };
                        let b0 = if b < i { b } else { b + 1 };
                        assert(after.users[a] == before.users[a0]);
                        assert(after.users[b] == before.users[b0]);
                    }
                    assert forall|a: int| 0 <= a < after.users.len() implies after.users[a].outbox.len()
                        <= OUTBOX_CAPACITY by {
                        let a0 = if a < i { a } else { a + 1 };
                        assert(after.users[a] == before.users[a0]);
                    }
                    assert(after.users[0] == before.users[0]);
                    lemma_replace_room(old(self)@, c, after);
                }
                let v = room.user_metas();
                self.rooms.insert(c, room);
                assert(self@ =~= old(self)@.insert(c, after));
                Some(v)
            },
        }
    }

    /// Hands a copy of `msg` to every participant of the room whose id is not in
    /// `excluded`. A participant whose outbox is full misses it; nobody waits.
    pub fn broadcast_excluding(&mut self, code: u32, msg: &Message, excluded: &Vec<UserId>)
        requires
            old(self).wf(),
        ensures
            final(self).wf(),
            hosts_kept(old(self)@, final(self)@),
            match live(old(self)@, code) {
                Some(c) => final(self)@ == old(self)@.insert(
                    c,
                    RoomView {
                        users: broadcast_users(old(self)@[c].users, msg@, excluded@),
                        ..old(self)@[c]
                    },
                ),
                None => final(self)@ == old(self)@,
            },
    {
        let c = match self.live_code(code) {
            Some(c) => c,
            None => return,
        };
        let mut room = self.rooms.remove(&c).unwrap();
        let ghost before = room@;
        assert(before == old(self)@[c]);
        room.broadcast_excluding(msg, excluded);
        proof {
            let after = room@;
            assert forall|a: int, b: int|
                0 <= a < after.users.len() && 0 <= b < after.users.len() && a != b implies after.users[a].meta.id
                != after.users[b].meta.id by {
                assert(after.users[a].meta == before.users[a].meta);
                assert(after.users[b].meta == before.users[b].meta);
            }
            assert forall|a: int| 0 <= a < after.users.len() implies after.users[a].outbox.len()
                <= OUTBOX_CAPACITY by {
                assert(before.users[a].outbox.len() <= OUTBOX_CAPACITY);
            }
            assert(after.users[0].meta == before.users[0].meta);
            lemma_replace_room(old(self)@, c, after);
        }
        self.rooms.insert(c, room);
        assert(self@ =~= old(self)@.insert(
            c,
            RoomView { users: broadcast_users(old(self)@[c].users, msg@, excluded@), ..old(self)@[c] },
        ));
    }

    /// Hands a copy of `msg` to one participant of the room, under the same
    /// rule as a broadcast.
    pub fn send_to_user(&mut self, code: u32, id: UserId, msg: &Message)
        requires
            old(self).wf(),
        ensures
            final(self).wf(),
            hosts_kept(old(self)@, final(self)@),
            match live(old(self)@, code) {
                Some(c) => final(self)@ == old(self)@.insert(
                    c,
                    RoomView { users: send_users(old(self)@[c].users, msg@, id), ..old(self)@[c] },
                ),
                None => final(self)@ == old(self)@,
            },
    {
        let c = match self.live_code(code) {
            Some(c) => c,
            None => return,
        };
        let mut room = self.rooms.remove(&c).unwrap();
        let ghost before = room@;
        assert(before == old(self)@[c]);
        room.send_to_user(id, msg);
        proof {
            let after = room@;
            assert forall|a: int, b: int|
                0 <= a < after.users.len() && 0 <= b < after.users.len() && a != b implies after.users[a].meta.id
                != after.users[b].meta.id by {
                assert(after.users[a].meta == before.users[a].meta);
                assert(after.users[b].meta == before.users[b].meta);
            }
            assert forall|a: int| 0 <= a < after.users.len() implies after.users[a].outbox.len()
                <= OUTBOX_CAPACITY by {
                assert(before.users[a].outbox.len() <= OUTBOX_CAPACITY);
            }
            assert(after.users[0].meta == before.users[0].meta);
            lemma_replace_room(old(self)@, c, after);
        }
        self.rooms.insert(c, room);
        assert(self@ =~= old(self)@.insert(
            c,
            RoomView { users: send_users(old(self)@[c].users, msg@, id), ..old(self)@[c] },
        ));
    }

    /// Takes everything waiting in one participant's outbox, oldest first.
    /// `None` when the room is gone or the participant is no longer in it: its
    /// connection has nothing left to serve.
    pub fn take_outbox(&mut self, code: u32, id: UserId) -> (r: Option<Vec<Message>>)
        requires
            old(self).wf(),
        ensures
            final(self).wf(),
            hosts_kept(old(self)@, final(self)@),
            match live(old(self)@, code) {
                Some(c) => if has_user(old(self)@[c].users, id) {
                    let i = user_position(old(self)@[c].users, id);
                    let u = old(self)@[c].users[i];
                    &&& r matches Some(v) && v@.map_values(|m: Message| m@) == u.outbox
                    &&& final(self)@ == old(self)@.insert(
                        c,
                        RoomView {
                            users: old(self)@[c].users.update(
                                i,
                                UserView { meta: u.meta, outbox: Seq::empty() },
                            ),
                            ..old(self)@[c]
                        },
                    )
                } else {
                    r is None && final(self)@ == old(self)@
                },
                None => r is None && final(self)@ == old(self)@,
            },
    {
        let c = match self.live_code(code) {
            Some(c) => c,
            None => return None,
        };
        let mut room = self.rooms.remove(&c).unwrap();
        let ghost before = room@;
        assert(before == old(self)@[c]);
        match room.position(id) {
            None => {
                self.rooms.insert(c, room);
                assert(self@ =~= old(self)@);
                None
            },
            Some(i) => {
                let ghost u = before.users[i as int];
                let taken = room.users[i].outbox.split_off(0);
                assert(taken@.map_values(|m: Message| m@) =~= u.outbox);
                let ghost after = RoomView {
                    users: before.users.update(i as int, UserView { meta: u.meta, outbox: Seq::empty() }),
                    ..before
                };
                assert(room@.users[i as int].outbox =~= Seq::<MessageView>::empty());
                assert(room@.users =~= after.users);
                proof {
                    lemma_replace_room(old(self)@, c, after);
                }
                self.rooms.insert(c, room);
                assert(self@ =~= old(self)@.insert(c, after));
                Some(taken)
            },
        }
    }
}

} // verus!
