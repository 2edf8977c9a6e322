use vstd::prelude::*;

use crate::model::{
    clone_tracks, Message, MessageView, PublishSession, PublishSessionView, RelayMessage,
    RelayMessageView, RelayRequest, Track,
};
use crate::registry::{hosts_kept, live, registry_wf, send_users, RoomRegistry, RoomView};

verus! {

/// What the relay service answers when it opens a session.
#[derive(Debug, PartialEq, Eq)]
pub struct NewSession {
    pub session_id: String,
    pub answer_sdp: Option<String>,
}

/// One call to the relay service's control plane.
#[derive(Debug, PartialEq, Eq)]
pub enum SfuCall {
    /// Opens a session, with an offer or without one.
    CreateSession(Option<String>),
    /// Adds tracks to a session: the session, an offer, the tracks, and the
    /// session they come from when they are another session's tracks.
    AddTracks(String, Option<String>, Vec<Track>, Option<String>),
    /// Hands a session a new local description.
    Renegotiate(String, String),
    /// Opens a data channel in a session: the session, the session it reads
    /// from if any, and the channel's name.
    CreateDataChannel(String, Option<String>, String),
}

/// A control-plane call, as a value.
pub enum SfuCallView {
    CreateSession(Option<Seq<char>>),
    AddTracks(Seq<char>, Option<Seq<char>>, Seq<Track>, Option<Seq<char>>),
    Renegotiate(Seq<char>, Seq<char>),
    CreateDataChannel(Seq<char>, Option<Seq<char>>, Seq<char>),
}

/// An optional text, as a value.
pub open spec fn opt_view(s: Option<String>) -> Option<Seq<char>> {
    match s {
        Some(t) => Some(t@),
        None => None,
    }
}

impl View for SfuCall {
    type V = SfuCallView;

    open spec fn view(&self) -> SfuCallView {
        match self {
            SfuCall::CreateSession(o) => SfuCallView::CreateSession(opt_view(*o)),
            SfuCall::AddTracks(s, o, t, r) => SfuCallView::AddTracks(
                s@,
                opt_view(*o),
                t@,
                opt_view(*r),
            ),
            SfuCall::Renegotiate(s, o) => SfuCallView::Renegotiate(s@, o@),
            SfuCall::CreateDataChannel(s, r, n) => SfuCallView::CreateDataChannel(
                s@,
                opt_view(*r),
                n@,
            ),
        }
    }
}

/// What came back from a call; `None` or `false` when the call failed.
#[derive(Debug, PartialEq, Eq)]
pub enum SfuReply {
    SessionCreated(Option<NewSession>),
    TracksAdded(Option<String>),
    Renegotiated(bool),
    DataChannelCreated(Option<u32>),
}

/// Why a step sent nothing.
#[derive(Debug, Clone, Copy, PartialEq, Eq, Structural)]
pub enum RelayNote {
    /// A request is still waiting for the relay service.
    Busy,
    /// The connection already has a session of its own.
    AlreadyInSession,
    /// The room's host media is already published.
    AlreadyPublished,
    /// The room no longer exists.
    RoomGone,
    /// Nothing has been published in the room yet.
    NoPublishSession,
    /// The connection has no session yet.
    NoSession,
    /// The host asked for a data channel to itself.
    HostOwnChannel,
    /// A message that only a client should receive.
    WrongDirection,
    /// A reply that no pending request expects.
    UnexpectedReply,
    /// A renegotiation went through.
    Renegotiated,
    /// A renegotiation failed.
    RenegotiateFailed,
}

/// The request that a connection is in the middle of.
#[derive(Debug, PartialEq, Eq)]
pub enum Pending {
    Idle,
    /// Publishing: waits for a session; holds the offer and the tracks.
    PublishSession(String, Vec<Track>),
    /// Publishing: waits for the tracks to be added to this session.
    PublishTracks(String, Vec<Track>),
    /// A viewer's own session: waits for it.
    JoinSession,
    /// The host's media: waits for a session to receive it in.
    MediaSession(PublishSession),
    /// The host's media: waits for it to be added to this session.
    MediaTracks(String),
    /// Waits for a renegotiation.
    Renegotiating,
    /// A data channel: waits for the requester's end; holds the requester's
    /// session, the host's session and the name.
    ChannelOwn(String, String, String),
    /// A data channel: waits for the host's end; holds the name and the
    /// requester's channel id.
    ChannelHost(String, u32),
}

/// A pending request, as a value.
pub enum PendingView {
    Idle,
    PublishSession(Seq<char>, Seq<Track>),
    PublishTracks(Seq<char>, Seq<Track>),
    JoinSession,
    MediaSession(PublishSessionView),
    MediaTracks(Seq<char>),
    Renegotiating,
    ChannelOwn(Seq<char>, Seq<char>, Seq<char>),
    ChannelHost(Seq<char>, u32),
}

impl View for Pending {
    type V = PendingView;

    open spec fn view(&self) -> PendingView {
        match self {
            Pending::Idle => PendingView::Idle,
            Pending::PublishSession(s, t) => PendingView::PublishSession(s@, t@),
            Pending::PublishTracks(s, t) => PendingView::PublishTracks(s@, t@),
            Pending::JoinSession => PendingView::JoinSession,
            Pending::MediaSession(p) => PendingView::MediaSession(p@),
            Pending::MediaTracks(s) => PendingView::MediaTracks(s@),
            Pending::Renegotiating => PendingView::Renegotiating,
            Pending::ChannelOwn(s, h, n) => PendingView::ChannelOwn(s@, h@, n@),
            Pending::ChannelHost(n, id) => PendingView::ChannelHost(n@, *id),
        }
    }
}

/// One connection's signaling state: its relay session, once it has one, and
/// the request it is in the middle of.
#[derive(Debug, PartialEq, Eq)]
pub struct Relay {
    pub session_id: Option<String>,
    pub pending: Pending,
}

/// A connection's signaling state, as a value.
pub struct RelayView {
    pub session_id: Option<Seq<char>>,
    pub pending: PendingView,
}

impl View for Relay {
    type V = RelayView;

    open spec fn view(&self) -> RelayView {
        RelayView { session_id: opt_view(self.session_id), pending: self.pending@ }
    }
}

/// What a step asks of the connection: make a call and hand its reply back,
/// send a message on its own connection, or nothing.
#[derive(Debug, PartialEq, Eq)]
pub enum RelayOutput {
    Call(SfuCall),
    Reply(RelayMessage),
    Silent(RelayNote),
}

/// A step's outcome, as a value.
pub enum RelayOutputView {
    Call(SfuCallView),
    Reply(RelayMessageView),
    Silent(RelayNote),
}

impl View for RelayOutput {
    type V = RelayOutputView;

    open spec fn view(&self) -> RelayOutputView {
        match self {
            RelayOutput::Call(c) => RelayOutputView::Call(c@),
            RelayOutput::Reply(m) => RelayOutputView::Reply(m@),
            RelayOutput::Silent(n) => RelayOutputView::Silent(*n),
        }
    }
}

/// The room with the given code, if it is live.
pub open spec fn room_of(m: Map<u32, RoomView>, code: u32) -> Option<RoomView> {
    match live(m, code) {
        Some(c) => Some(m[c]),
        None => None,
    }
}

/// The same connection, now waiting on `p`.
pub open spec fn waiting(r: RelayView, p: PendingView) -> RelayView {
    RelayView { session_id: r.session_id, pending: p }
}

/// A step that sends nothing and leaves the connection as it was.
pub open spec fn silent(r: RelayView, n: RelayNote) -> (RelayView, RelayOutputView) {
    (r, RelayOutputView::Silent(n))
}

/// A step that gives up on the pending request and tells the client so.
pub open spec fn failed(r: RelayView, q: RelayRequest) -> (RelayView, RelayOutputView) {
    (
        waiting(r, PendingView::Idle),
        RelayOutputView::Reply(RelayMessageView::RequestFailed(q)),
    )
}

/// The connection keeps the session it has; one without a session takes `sid`.
pub open spec fn adopt(r: RelayView, sid: Seq<char>) -> RelayView {
    RelayView {
        session_id: match r.session_id {
            Some(s) => Some(s),
            None => Some(sid),
        },
        pending: PendingView::Idle,
    }
}

/// How a connection answers a signaling message from its own participant,
/// given the room as it stands.
pub open spec fn message_step(r: RelayView, room: Option<RoomView>, msg: RelayMessageView) -> (
    RelayView,
    RelayOutputView,
) {
    if !(r.pending is Idle) {
        silent(r, RelayNote::Busy)
    } else {
        match msg {
            RelayMessageView::PublishOffer(sdp, tracks) => if r.session_id is Some {
                silent(r, RelayNote::AlreadyInSession)
            } else {
                match room {
                    None => silent(r, RelayNote::RoomGone),
                    Some(room) => if room.publish is Some {
                        silent(r, RelayNote::AlreadyPublished)
                    } else {
                        (
                            waiting(r, PendingView::PublishSession(sdp, tracks)),
                            RelayOutputView::Call(SfuCallView::CreateSession(None)),
                        )
                    },
                }
            },
            RelayMessageView::RequestJoinOffer(sdp) => if r.session_id is Some {
                silent(r, RelayNote::AlreadyInSession)
            } else {
                (
                    waiting(r, PendingView::JoinSession),
                    RelayOutputView::Call(SfuCallView::CreateSession(Some(sdp))),
                )
            },
            RelayMessageView::RequestMediaRelay => match room {
                None => silent(r, RelayNote::RoomGone),
                Some(room) => match room.publish {
                    None => silent(r, RelayNote::NoPublishSession),
                    Some(host) => match r.session_id {
                        Some(sid) => (
                            waiting(r, PendingView::MediaTracks(sid)),
                            RelayOutputView::Call(
                                SfuCallView::AddTracks(sid, None, host.tracks, Some(host.session_id)),
                            ),
                        ),
                        None => (
                            waiting(r, PendingView::MediaSession(host)),
                            RelayOutputView::Call(SfuCallView::CreateSession(None)),
                        ),
                    },
                },
            },
            RelayMessageView::RenegotiateLocal(sdp) => match r.session_id {
                None => silent(r, RelayNote::NoSession),
                Some(sid) => (
                    waiting(r, PendingView::Renegotiating),
                    RelayOutputView::Call(SfuCallView::Renegotiate(sid, sdp)),
                ),
            },
            RelayMessageView::RequestDataChannel(name) => match r.session_id {
                None => silent(r, RelayNote::NoSession),
                Some(sid) => match room {
                    None => silent(r, RelayNote::RoomGone),
                    Some(room) => match room.publish {
                        None => silent(r, RelayNote::NoPublishSession),
                        Some(host) => if sid == host.session_id {
                            silent(r, RelayNote::HostOwnChannel)
                        } else {
                            (
                                waiting(r, PendingView::ChannelOwn(sid, host.session_id, name)),
                                RelayOutputView::Call(SfuCallView::CreateDataChannel(sid, None, name)),
                            )
                        },
                    },
                },
            },
            _ => silent(r, RelayNote::WrongDirection),
        }
    }
}

/// The suffix that names the host's end of a data channel.
pub open spec fn sub_suffix() -> Seq<char> {
    seq!['-', 's', 'u', 'b']
}

/// How a connection goes on when the relay service answers its pending call.
pub open spec fn reply_step(r: RelayView, room: Option<RoomView>, reply: SfuReply) -> (
    RelayView,
    RelayOutputView,
) {
    match (r.pending, reply) {
        (PendingView::PublishSession(sdp, tracks), SfuReply::SessionCreated(Some(ns))) => (
            waiting(r, PendingView::PublishTracks(ns.session_id@, tracks)),
            RelayOutputView::Call(SfuCallView::AddTracks(ns.session_id@, Some(sdp), tracks, None)),
        ),
        (PendingView::PublishSession(_, _), SfuReply::SessionCreated(None)) => failed(
            r,
            RelayRequest::Publish,
        ),
        (PendingView::PublishTracks(sid, _), SfuReply::TracksAdded(Some(answer))) => match room {
            None => silent(waiting(r, PendingView::Idle), RelayNote::RoomGone),
            Some(room) => if room.publish is Some {
                failed(r, RelayRequest::Publish)
            } else {
                (adopt(r, sid), RelayOutputView::Reply(RelayMessageView::PublishAnswer(answer@)))
            },
        },
        (PendingView::PublishTracks(_, _), SfuReply::TracksAdded(None)) => failed(
            r,
            RelayRequest::Publish,
        ),
        (PendingView::JoinSession, SfuReply::SessionCreated(Some(ns))) => match ns.answer_sdp {
            Some(a) => (
                adopt(r, ns.session_id@),
                RelayOutputView::Reply(RelayMessageView::JoinAnswer(a@)),
            ),
            None => failed(r, RelayRequest::JoinOffer),
        },
        (PendingView::JoinSession, SfuReply::SessionCreated(None)) => failed(
            r,
            RelayRequest::JoinOffer,
        ),
        (PendingView::MediaSession(host), SfuReply::SessionCreated(Some(ns))) => (
            waiting(r, PendingView::MediaTracks(ns.session_id@)),
            RelayOutputView::Call(
                SfuCallView::AddTracks(ns.session_id@, None, host.tracks, Some(host.session_id)),
            ),
        ),
        (PendingView::MediaSession(_), SfuReply::SessionCreated(None)) => failed(
            r,
            RelayRequest::MediaRelay,
        ),
        (PendingView::MediaTracks(sid), SfuReply::TracksAdded(Some(sdp))) => (
            adopt(r, sid),
            RelayOutputView::Reply(RelayMessageView::MediaOffer(sdp@)),
        ),
        (PendingView::MediaTracks(_), SfuReply::TracksAdded(None)) => failed(
            r,
            RelayRequest::MediaRelay,
        ),
        (PendingView::Renegotiating, SfuReply::Renegotiated(ok)) => silent(
            waiting(r, PendingView::Idle),
            if ok {
                RelayNote::Renegotiated
            } else {
                RelayNote::RenegotiateFailed
            },
        ),
        (PendingView::ChannelOwn(sid, host_sid, name), SfuReply::DataChannelCreated(Some(id))) => (
            waiting(r, PendingView::ChannelHost(name, id)),
            RelayOutputView::Call(SfuCallView::CreateDataChannel(host_sid, Some(sid), name)),
        ),
        (PendingView::ChannelOwn(_, _, _), SfuReply::DataChannelCreated(None)) => failed(
            r,
            RelayRequest::DataChannel,
        ),
        (PendingView::ChannelHost(name, id), SfuReply::DataChannelCreated(Some(_))) => (
            waiting(r, PendingView::Idle),
            RelayOutputView::Reply(RelayMessageView::DataChannelReady(name, id)),
        ),
        (PendingView::ChannelHost(_, _), SfuReply::DataChannelCreated(None)) => failed(
            r,
            RelayRequest::DataChannel,
        ),
        _ => silent(r, RelayNote::UnexpectedReply),
    }
}

/// What a reply does to the rooms: a completed publish records the host's
/// media in a room that has none yet; a completed data channel hands the
/// host its end.
pub open spec fn reply_effect(m: Map<u32, RoomView>, code: u32, r: RelayView, reply: SfuReply) -> Map<
    u32,
    RoomView,
> {
    match (r.pending, reply) {
        (PendingView::PublishTracks(sid, tracks), SfuReply::TracksAdded(Some(_))) => match live(m, code) {
            Some(c) => if m[c].publish is None {
                m.insert(
                    c,
                    RoomView {
                        publish: Some(PublishSessionView { session_id: sid, tracks: tracks }),
                        ..m[c]
                    },
                )
            } else {
                m
            },
            None => m,
        },
        (PendingView::ChannelHost(name, _), SfuReply::DataChannelCreated(Some(host_id))) => match live(m, code) {
            Some(c) => m.insert(
                c,
                RoomView {
                    users: send_users(
                        m[c].users,
                        MessageView::Relay(
                            RelayMessageView::DataChannelReady(name + sub_suffix(), host_id),
                        ),
                        m[c].users[0].meta.id,
                    ),
                    ..m[c]
                },
            ),
            None => m,
        },
        _ => m,
    }
}

impl Relay {
    /// A connection that has no session and waits for nothing.
    pub fn new() -> (r: Relay)
        ensures
            r@ == (RelayView { session_id: None, pending: PendingView::Idle }),
    {
        Relay { session_id: None, pending: Pending::Idle }
    }

    fn take_session(&mut self, sid: String)
        ensures
            final(self)@ == adopt(old(self)@, sid@),
    {
        if self.session_id.is_none() {
            self.session_id = Some(sid);
        }
        self.pending = Pending::Idle;
    }

    /// Answers a signaling message from this connection's participant in the
    /// room with code `code`. Nothing here changes a room: a step that needs the relay
    /// service asks for a call, and the call's reply goes to `on_reply`.
    pub fn on_message(&mut self, rooms: &RoomRegistry, code: u32, msg: RelayMessage) -> (out:
        RelayOutput)
        ensures
            (final(self)@, out@) == message_step(old(self)@, room_of(rooms@, code), msg@),
    {
        match self.pending {
            Pending::Idle => {},
            _ => return RelayOutput::Silent(RelayNote::Busy),
        }
        match msg {
            RelayMessage::PublishOffer(sdp, tracks) => {
                if self.session_id.is_some() {
                    return RelayOutput::Silent(RelayNote::AlreadyInSession);
                }
                match rooms.room(code) {
                    None => RelayOutput::Silent(RelayNote::RoomGone),
                    Some(room) => {
                        if room.publish.is_some() {
                            RelayOutput::Silent(RelayNote::AlreadyPublished)
                        } else {
                            self.pending = Pending::PublishSession(sdp, tracks);
                            RelayOutput::Call(SfuCall::CreateSession(None))
                        }
                    },
                }
            },
            RelayMessage::RequestJoinOffer(sdp) => {
                if self.session_id.is_some() {
                    return RelayOutput::Silent(RelayNote::AlreadyInSession);
                }
                self.pending = Pending::JoinSession;
                RelayOutput::Call(SfuCall::CreateSession(Some(sdp)))
            },
            RelayMessage::RequestMediaRelay => match rooms.room(code) {
                None => RelayOutput::Silent(RelayNote::RoomGone),
                Some(room) => match &room.publish {
                    None => RelayOutput::Silent(RelayNote::NoPublishSession),
                    Some(host) => match &self.session_id {
                        Some(sid) => {
                            let call = SfuCall::AddTracks(
                                sid.clone(),
                                None,
                                clone_tracks(&host.tracks),
                                Some(host.session_id.clone()),
                            );
                            self.pending = Pending::MediaTracks(sid.clone());
                            RelayOutput::Call(call)
                        },
                        None => {
                            self.pending = Pending::MediaSession(host.clone());
                            RelayOutput::Call(SfuCall::CreateSession(None))
                        },
                    },
                },
            },
            RelayMessage::RenegotiateLocal(sdp) => match &self.session_id {
                None => RelayOutput::Silent(RelayNote::NoSession),
                Some(sid) => {
                    let call = SfuCall::Renegotiate(sid.clone(), sdp);
                    self.pending = Pending::Renegotiating;
                    RelayOutput::Call(call)
                },
            },
            RelayMessage::RequestDataChannel(name) => match &self.session_id {
                None => RelayOutput::Silent(RelayNote::NoSession),
                Some(sid) => match rooms.room(code) {
                    None => RelayOutput::Silent(RelayNote::RoomGone),
                    Some(room) => match &room.publish {
                        None => RelayOutput::Silent(RelayNote::NoPublishSession),
                        Some(host) => {
                            if *sid == host.session_id {
                                RelayOutput::Silent(RelayNote::HostOwnChannel)
                            } else {
                                let call = SfuCall::CreateDataChannel(sid.clone(), None, name.clone());
                                self.pending = Pending::ChannelOwn(
                                    sid.clone(),
                                    host.session_id.clone(),
                                    name,
                                );
                                RelayOutput::Call(call)
                            }
                        },
                    },
                },
            },
            _ => RelayOutput::Silent(RelayNote::WrongDirection),
        }
    }

    /// Goes on with the pending request once the relay service has answered,
    /// recording a completed publish in the room and handing the host its end
    /// of a completed data channel.
    pub fn on_reply(&mut self, rooms: &mut RoomRegistry, code: u32, reply: SfuReply) -> (out:
        RelayOutput)
        requires
            old(rooms).wf(),
        ensures
            final(rooms).wf(),
            hosts_kept(old(rooms)@, final(rooms)@),
            (final(self)@, out@) == reply_step(old(self)@, room_of(old(rooms)@, code), reply),
            final(rooms)@ == reply_effect(old(rooms)@, code, old(self)@, reply),
    {
        let mut p = Pending::Idle;
        std::mem::swap(&mut self.pending, &mut p);
        match p {
            Pending::Idle => RelayOutput::Silent(RelayNote::UnexpectedReply),
            Pending::PublishSession(sdp, tracks) => match reply {
                SfuReply::SessionCreated(Some(ns)) => {
                    let call = SfuCall::AddTracks(
                        ns.session_id.clone(),
                        Some(sdp),
                        clone_tracks(&tracks),
                        None,
                    );
                    self.pending = Pending::PublishTracks(ns.session_id, tracks);
                    RelayOutput::Call(call)
                },
                SfuReply::SessionCreated(None) => RelayOutput::Reply(
                    RelayMessage::RequestFailed(RelayRequest::Publish),
                ),
                _ => {
                    self.pending = Pending::PublishSession(sdp, tracks);
                    RelayOutput::Silent(RelayNote::UnexpectedReply)
                },
            },
            Pending::PublishTracks(sid, tracks) => match reply {
                SfuReply::TracksAdded(Some(answer)) => {
                    if rooms.room(code).is_none() {
                        return RelayOutput::Silent(RelayNote::RoomGone);
                    }
                    let session = PublishSession { session_id: sid.clone(), tracks };
                    if rooms.set_publish_session(code, session) {
                        self.take_session(sid);
                        RelayOutput::Reply(RelayMessage::PublishAnswer(answer))
                    } else {
                        RelayOutput::Reply(RelayMessage::RequestFailed(RelayRequest::Publish))
                    }
                },
                SfuReply::TracksAdded(None) => RelayOutput::Reply(
                    RelayMessage::RequestFailed(RelayRequest::Publish),
                ),
                _ => {
                    self.pending = Pending::PublishTracks(sid, tracks);
                    RelayOutput::Silent(RelayNote::UnexpectedReply)
                },
            },
            Pending::JoinSession => match reply {
                SfuReply::SessionCreated(Some(ns)) => match ns.answer_sdp {
                    Some(a) => {
                        self.take_session(ns.session_id);
                        RelayOutput::Reply(RelayMessage::JoinAnswer(a))
                    },
                    None => RelayOutput::Reply(RelayMessage::RequestFailed(RelayRequest::JoinOffer)),
                },
                SfuReply::SessionCreated(None) => RelayOutput::Reply(
                    RelayMessage::RequestFailed(RelayRequest::JoinOffer),
                ),
                _ => {
                    self.pending = Pending::JoinSession;
                    RelayOutput::Silent(RelayNote::UnexpectedReply)
                },
            },
            Pending::MediaSession(host) => match reply {
                SfuReply::SessionCreated(Some(ns)) => {
                    let call = SfuCall::AddTracks(
                        ns.session_id.clone(),
                        None,
                        host.tracks,
                        Some(host.session_id),
                    );
                    self.pending = Pending::MediaTracks(ns.session_id);
                    RelayOutput::Call(call)
                },
                SfuReply::SessionCreated(None) => RelayOutput::Reply(
                    RelayMessage::RequestFailed(RelayRequest::MediaRelay),
                ),
                _ => {
                    self.pending = Pending::MediaSession(host);
                    RelayOutput::Silent(RelayNote::UnexpectedReply)
                },
            },
            Pending::MediaTracks(sid) => match reply {
                SfuReply::TracksAdded(Some(sdp)) => {
                    self.take_session(sid);
                    RelayOutput::Reply(RelayMessage::MediaOffer(sdp))
                },
                SfuReply::TracksAdded(None) => RelayOutput::Reply(
                    RelayMessage::RequestFailed(RelayRequest::MediaRelay),
                ),
                _ => {
                    self.pending = Pending::MediaTracks(sid);
                    RelayOutput::Silent(RelayNote::UnexpectedReply)
                },
            },
            Pending::Renegotiating => match reply {
                SfuReply::Renegotiated(ok) => RelayOutput::Silent(
                    if ok {
                        RelayNote::Renegotiated
                    } else {
                        RelayNote::RenegotiateFailed
                    },
                ),
                _ => {
                    self.pending = Pending::Renegotiating;
                    RelayOutput::Silent(RelayNote::UnexpectedReply)
                },
            },
            Pending::ChannelOwn(sid, host_sid, name) => match reply {
                SfuReply::DataChannelCreated(Some(id)) => {
                    let call = SfuCall::CreateDataChannel(host_sid, Some(sid), name.clone());
                    self.pending = Pending::ChannelHost(name, id);
                    RelayOutput::Call(call)
                },
                SfuReply::DataChannelCreated(None) => RelayOutput::Reply(
                    RelayMessage::RequestFailed(RelayRequest::DataChannel),
                ),
                _ => {
                    self.pending = Pending::ChannelOwn(sid, host_sid, name);
                    RelayOutput::Silent(RelayNote::UnexpectedReply)
                },
            },
            Pending::ChannelHost(name, id) => match reply {
                SfuReply::DataChannelCreated(Some(host_end)) => {
                    let host = match rooms.room(code) {
                        Some(room) => {
                            proof {
                                let c = code;
                                assert(registry_wf(old(rooms)@));
                                assert(old(rooms)@.contains_key(c));
                            }
                            assert(room.users@.len() > 0);
                            Some(room.users[0].meta.id)
                        },
                        None => None,
                    };
                    if let Some(h) = host {
                        let mut sub = name.clone();
                        proof {
                            reveal_strlit("-sub");
                        }
                        sub.append("-sub");
                        assert("-sub"@ =~= sub_suffix());
                        let note = Message::Relay(RelayMessage::DataChannelReady(sub, host_end));
                        rooms.send_to_user(code, h, &note);
                    }
                    RelayOutput::Reply(RelayMessage::DataChannelReady(name, id))
                },
                SfuReply::DataChannelCreated(None) => RelayOutput::Reply(
                    RelayMessage::RequestFailed(RelayRequest::DataChannel),
                ),
                _ => {
                    self.pending = Pending::ChannelHost(name, id);
                    RelayOutput::Silent(RelayNote::UnexpectedReply)
                },
            },
        }
    }
}

} // verus!
