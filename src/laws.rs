use vstd::prelude::*;

use crate::code::{code_text, lemma_code_text_injective};
use crate::connection::{farewell, welcomed_room};
use crate::model::{
    MessageView, RelayMessageView, ServerMessageView, Track, UserJoinedView, UserLeftView, UserMeta,
};
use crate::registry::{
    broadcast_users, deliver, has_user, hosts_kept, metas, registry_wf, room_wf,
    user_position, RoomView, UserView, OUTBOX_CAPACITY,
};
use crate::relay::{message_step, reply_effect, reply_step, room_of, RelayView, SfuReply};

verus! {

/// Two live rooms never share an id: distinct codes are written differently.
pub proof fn law_room_ids_unique(m: Map<u32, RoomView>, c1: u32, c2: u32)
    requires
        registry_wf(m),
        m.contains_key(c1),
        m.contains_key(c2),
        c1 != c2,
    ensures
        code_text(c1) != code_text(c2),
{
    assert(room_wf(m[c1]) && room_wf(m[c2]));
    lemma_code_text_injective(c1, c2);
}

/// A room's host never changes while the room lives: across any run of
/// registry operations, each of which keeps every surviving room's host, a
/// room that is live throughout has the host it started with.
pub proof fn law_host_stays(states: Seq<Map<u32, RoomView>>, c: u32)
    requires
        states.len() >= 1,
        forall|i: int| 0 <= i < states.len() - 1 ==> hosts_kept(#[trigger] states[i], states[i + 1]),
        forall|i: int| 0 <= i < states.len() ==> (#[trigger] states[i]).contains_key(c),
    ensures
        states[states.len() - 1][c].users[0].meta.id == states[0][c].users[0].meta.id,
    decreases states.len(),
{
    if states.len() > 1 {
        let shorter = states.subrange(0, states.len() - 1);
        assert forall|i: int| 0 <= i < shorter.len() - 1 implies hosts_kept(
            #[trigger] shorter[i],
            shorter[i + 1],
        ) by {
            assert(shorter[i] == states[i]);
            assert(shorter[i + 1] == states[i + 1]);
        }
        assert forall|i: int| 0 <= i < shorter.len() implies (#[trigger] shorter[i]).contains_key(
            c,
        ) by {
            assert(shorter[i] == states[i]);
        }
        law_host_stays(shorter, c);
        let n = states.len() - 1;
        assert(hosts_kept(states[n - 1], states[n]));
        assert(states[n - 1].contains_key(c) && states[n].contains_key(c));
    }
}

/// Media is published at most once per room: once a room has a publish
/// session, a publish offer from any connection asks nothing of the relay
/// service, and no reply to any pending request changes that session.
pub proof fn law_publish_once(
    m: Map<u32, RoomView>,
    code: u32,
    r: RelayView,
    sdp: Seq<char>,
    tracks: Seq<Track>,
    reply: SfuReply,
)
    requires
        room_of(m, code) matches Some(room) && room.publish is Some,
    ensures
        message_step(r, room_of(m, code), RelayMessageView::PublishOffer(sdp, tracks)).1 is Silent,
        message_step(r, room_of(m, code), RelayMessageView::PublishOffer(sdp, tracks)).0 == r,
        room_of(reply_effect(m, code, r, reply), code) matches Some(after) && after.publish == room_of(m, code)->0.publish,
{
    assert(reply_effect(m, code, r, reply).contains_key(code));
}

/// A broadcast reaches exactly the participants that it does not exclude:
/// each of them finds the message appended after what it already had (unless
/// its outbox is full), and an excluded one finds its outbox as it was.
pub proof fn law_broadcast_exclusion(users: Seq<UserView>, m: MessageView, excluded: Seq<u128>)
    ensures
        broadcast_users(users, m, excluded).len() == users.len(),
        forall|i: int|
            0 <= i < users.len() ==> (#[trigger] broadcast_users(users, m, excluded)[i]).meta
                == users[i].meta,
        forall|i: int|
            0 <= i < users.len() && excluded.contains(users[i].meta.id) ==> (#[trigger] broadcast_users(
                users,
                m,
                excluded,
            )[i]).outbox == users[i].outbox,
        forall|i: int|
            0 <= i < users.len() && !excluded.contains(users[i].meta.id) && users[i].outbox.len()
                < OUTBOX_CAPACITY ==> (#[trigger] broadcast_users(
                users,
                m,
                excluded,
            )[i]).outbox == users[i].outbox.push(m),
{
}

/// Joining and leaving mirror each other: a newcomer's arrival is announced to
/// exactly the members already there, each told the list with the newcomer
/// last; when the newcomer then leaves, exactly those members are told, with
/// the list as it was before.
pub proof fn law_join_leave_symmetry(m: Map<u32, RoomView>, c: u32, u: UserMeta)
    requires
        registry_wf(m),
        m.contains_key(c),
        !has_user(m[c].users, u.id),
    ensures
        ({
            let before = m[c].users;
            let n = before.len() as int;
            let w = welcomed_room(m[c], u);
            let joined = MessageView::Server(
                ServerMessageView::UserJoined(
                    UserJoinedView {
                        new_user: u.id,
                        users: metas(before).push(u),
                        player_status: m[c].player_status,
                    },
                ),
            );
            let after = farewell(m.insert(c, w), c, u.id);
            let left = MessageView::Server(
                ServerMessageView::UserLeft(
                    UserLeftView {
                        user_left: u.id,
                        users: metas(before),
                        player_status: m[c].player_status,
                    },
                ),
            );
            &&& w.users.len() == n + 1
            &&& w.users[n].outbox == Seq::<MessageView>::empty()
            &&& forall|i: int|
                0 <= i < n ==> (#[trigger] w.users[i]).outbox == deliver(before[i].outbox, joined)
            &&& after.contains_key(c)
            &&& after[c].users.len() == n
            &&& metas(after[c].users) == metas(before)
            &&& forall|i: int|
                0 <= i < n ==> (#[trigger] after[c].users[i]).outbox == deliver(
                    w.users[i].outbox,
                    left,
                )
        }),
{
    let before = m[c].users;
    let n = before.len() as int;
    assert(room_wf(m[c]));
    let w = welcomed_room(m[c], u);
    let grown = before.push(UserView { meta: u, outbox: Seq::empty() });
    assert(metas(grown) =~= metas(before).push(u));
    let m2 = m.insert(c, w);
    assert(w.users[n].meta.id == u.id);
    assert(has_user(w.users, u.id));
    let p = user_position(w.users, u.id);
    assert(0 <= p < w.users.len() && w.users[p].meta.id == u.id);
    if p != n {
        assert(before[p].meta.id == u.id);
        assert(false);
    }
    assert(w.users[0].meta.id != u.id) by {
        assert(before[0].meta.id == w.users[0].meta.id);
    }
    let rest = w.users.remove(n);
    assert(metas(rest) =~= metas(before));
    let joined = MessageView::Server(
        ServerMessageView::UserJoined(
            UserJoinedView {
                new_user: u.id,
                users: metas(before).push(u),
                player_status: m[c].player_status,
            },
        ),
    );
    assert(w.users.len() == n + 1);
    assert(seq![u.id][0] == u.id);
    assert(seq![u.id].contains(u.id));
    assert(grown[n].meta.id == u.id);
    assert(w.users[n].outbox == Seq::<MessageView>::empty());
    assert forall|i: int| 0 <= i < n implies (#[trigger] w.users[i]).outbox == deliver(
        before[i].outbox,
        joined,
    ) by {
        assert(grown[i] == before[i]);
        assert(before[i].meta.id != u.id);
        assert(!seq![u.id].contains(grown[i].meta.id)) by {
            if seq![u.id].contains(grown[i].meta.id) {
                assert(seq![u.id][0] == u.id);
            }
        }
    }
    let after = farewell(m2, c, u.id);
    assert(after.contains_key(c));
    assert(after[c].users.len() == n);
    assert(metas(after[c].users) =~= metas(before));
}

/// A connection holds at most one relay session: once it has one, no message
/// and no reply replaces it.
pub proof fn law_session_kept(
    r: RelayView,
    room: Option<RoomView>,
    msg: RelayMessageView,
    reply: SfuReply,
)
    requires
        r.session_id is Some,
    ensures
        message_step(r, room, msg).0.session_id == r.session_id,
        reply_step(r, room, reply).0.session_id == r.session_id,
{
}

/// The outbox after the messages `ms` were handed to it one after another.
pub open spec fn deliver_all(q: Seq<MessageView>, ms: Seq<MessageView>) -> Seq<MessageView>
    decreases ms.len(),
{
    if ms.len() == 0 {
        q
    } else {
        deliver(deliver_all(q, ms.drop_last()), ms.last())
    }
}

/// Messages reach a participant in the order they were handed over: while its
/// outbox has room for them all, they stand after what was already there, in
/// that order, each once.
pub proof fn law_outbox_order(q: Seq<MessageView>, ms: Seq<MessageView>)
    requires
        q.len() + ms.len() <= OUTBOX_CAPACITY,
    ensures
        deliver_all(q, ms) == q + ms,
    decreases ms.len(),
{
    if ms.len() > 0 {
        law_outbox_order(q, ms.drop_last());
        assert(q + ms == (q + ms.drop_last()).push(ms.last()));
    } else {
        assert(q + ms =~= q);
    }
}

} // verus!
