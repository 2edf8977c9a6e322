use vstd::prelude::*;

verus! {

/// A participant's identifier: a random version-4 UUID read as one integer.
pub type UserId = u128;

/// What a participant has picked to watch.
#[derive(Debug, PartialEq, Eq)]
pub enum UserState {
    VideoNotSelected,
    VideoSelected(String),
}

/// Playback of the shared content, at a position in the content's own time unit.
#[derive(Debug, Clone, Copy, PartialEq, Eq, Structural)]
pub enum PlayerStatus {
    Playing(u64),
    Paused(u64),
}

/// The part of a participant that other participants get to see.
#[derive(Debug, PartialEq, Eq)]
pub struct UserMeta {
    pub id: UserId,
    pub name: String,
    pub state: UserState,
}

/// One published media track inside a relay session.
#[derive(Debug, PartialEq, Eq)]
pub struct Track {
    pub mid: Option<String>,
    pub track_name: Option<String>,
}

/// The host's published media: its relay session and the tracks in it.
#[derive(Debug, PartialEq, Eq)]
pub struct PublishSession {
    pub session_id: String,
    pub tracks: Vec<Track>,
}

/// What a participant learns on entering a room.
#[derive(Debug, PartialEq, Eq)]
pub struct RoomInfo {
    pub room_id: String,
    pub user_id: UserId,
    pub users: Vec<UserMeta>,
    pub player_status: PlayerStatus,
}

/// Sent to the other members when someone enters.
#[derive(Debug, PartialEq, Eq)]
pub struct UserJoined {
    pub new_user: UserId,
    pub users: Vec<UserMeta>,
    pub player_status: PlayerStatus,
}

/// Sent to the remaining members when someone leaves.
#[derive(Debug, PartialEq, Eq)]
pub struct UserLeft {
    pub user_left: UserId,
    pub users: Vec<UserMeta>,
    pub player_status: PlayerStatus,
}

/// Messages that only the server sends.
#[derive(Debug, PartialEq, Eq)]
pub enum ServerMessage {
    RoomCreated(RoomInfo),
    RoomJoined(RoomInfo),
    UserJoined(UserJoined),
    UserLeft(UserLeft),
}

/// Chat and playback messages, passed on verbatim to the other participants.
#[derive(Debug, PartialEq, Eq)]
pub enum ClientMessage {
    Chat(String),
    SelectedVideo(String),
    Play(u64),
    Pause(u64),
    Seek(u64),
    Update(u64),
}

/// The signaling requests that can end without the reply the client waits for.
#[derive(Debug, Clone, Copy, PartialEq, Eq, Structural)]
pub enum RelayRequest {
    Publish,
    JoinOffer,
    MediaRelay,
    DataChannel,
}

/// Messages that drive the media session negotiation through the relay service.
#[derive(Debug, PartialEq, Eq)]
pub enum RelayMessage {
    /// The host offers its local description and the tracks it publishes.
    PublishOffer(String, Vec<Track>),
    /// The relay's answer to a publish offer.
    PublishAnswer(String),
    /// A viewer offers a description for a session of its own.
    RequestJoinOffer(String),
    /// The relay's answer to a viewer's offer.
    JoinAnswer(String),
    /// A viewer asks for the host's published media.
    RequestMediaRelay,
    /// The relay's offer carrying the host's media.
    MediaOffer(String),
    /// A new local description for an existing session.
    RenegotiateLocal(String),
    /// Asks for a data channel between the requester and the host.
    RequestDataChannel(String),
    /// A data channel was created: its name and id.
    DataChannelReady(String, u32),
    /// A request could not be completed.
    RequestFailed(RelayRequest),
}

/// Everything that travels over a participant's connection.
#[derive(Debug, PartialEq, Eq)]
pub enum Message {
    Server(ServerMessage),
    Client(UserId, ClientMessage),
    Relay(RelayMessage),
}

/// The host's published media, as a value.
pub struct PublishSessionView {
    pub session_id: Seq<char>,
    pub tracks: Seq<Track>,
}

/// What a participant learns on entering a room, as a value.
pub struct RoomInfoView {
    pub room_id: Seq<char>,
    pub user_id: UserId,
    pub users: Seq<UserMeta>,
    pub player_status: PlayerStatus,
}

/// An arrival notice, as a value.
pub struct UserJoinedView {
    pub new_user: UserId,
    pub users: Seq<UserMeta>,
    pub player_status: PlayerStatus,
}

/// A departure notice, as a value.
pub struct UserLeftView {
    pub user_left: UserId,
    pub users: Seq<UserMeta>,
    pub player_status: PlayerStatus,
}

/// A message that only the server sends, as a value.
pub enum ServerMessageView {
    RoomCreated(RoomInfoView),
    RoomJoined(RoomInfoView),
    UserJoined(UserJoinedView),
    UserLeft(UserLeftView),
}

/// A signaling message, as a value: its texts as character sequences.
pub enum RelayMessageView {
    PublishOffer(Seq<char>, Seq<Track>),
    PublishAnswer(Seq<char>),
    RequestJoinOffer(Seq<char>),
    JoinAnswer(Seq<char>),
    RequestMediaRelay,
    MediaOffer(Seq<char>),
    RenegotiateLocal(Seq<char>),
    RequestDataChannel(Seq<char>),
    DataChannelReady(Seq<char>, u32),
    RequestFailed(RelayRequest),
}

/// A message, as a value.
pub enum MessageView {
    Server(ServerMessageView),
    Client(UserId, ClientMessage),
    Relay(RelayMessageView),
}

impl View for PublishSession {
    type V = PublishSessionView;

    open spec fn view(&self) -> PublishSessionView {
        PublishSessionView { session_id: self.session_id@, tracks: self.tracks@ }
    }
}

impl View for RoomInfo {
    type V = RoomInfoView;

    open spec fn view(&self) -> RoomInfoView {
        RoomInfoView {
            room_id: self.room_id@,
            user_id: self.user_id,
            users: self.users@,
            player_status: self.player_status,
        }
    }
}

impl View for UserJoined {
    type V = UserJoinedView;

    open spec fn view(&self) -> UserJoinedView {
        UserJoinedView { new_user: self.new_user, users: self.users@, player_status: self.player_status }
    }
}

impl View for UserLeft {
    type V = UserLeftView;

    open spec fn view(&self) -> UserLeftView {
        UserLeftView { user_left: self.user_left, users: self.users@, player_status: self.player_status }
    }
}

impl View for ServerMessage {
    type V = ServerMessageView;

    open spec fn view(&self) -> ServerMessageView {
        match self {
            ServerMessage::RoomCreated(i) => ServerMessageView::RoomCreated(i@),
            ServerMessage::RoomJoined(i) => ServerMessageView::RoomJoined(i@),
            ServerMessage::UserJoined(j) => ServerMessageView::UserJoined(j@),
            ServerMessage::UserLeft(l) => ServerMessageView::UserLeft(l@),
        }
    }
}

impl View for RelayMessage {
    type V = RelayMessageView;

    open spec fn view(&self) -> RelayMessageView {
        match self {
            RelayMessage::PublishOffer(s, t) => RelayMessageView::PublishOffer(s@, t@),
            RelayMessage::PublishAnswer(s) => RelayMessageView::PublishAnswer(s@),
            RelayMessage::RequestJoinOffer(s) => RelayMessageView::RequestJoinOffer(s@),
            RelayMessage::JoinAnswer(s) => RelayMessageView::JoinAnswer(s@),
            RelayMessage::RequestMediaRelay => RelayMessageView::RequestMediaRelay,
            RelayMessage::MediaOffer(s) => RelayMessageView::MediaOffer(s@),
            RelayMessage::RenegotiateLocal(s) => RelayMessageView::RenegotiateLocal(s@),
            RelayMessage::RequestDataChannel(s) => RelayMessageView::RequestDataChannel(s@),
            RelayMessage::DataChannelReady(s, id) => RelayMessageView::DataChannelReady(s@, *id),
            RelayMessage::RequestFailed(q) => RelayMessageView::RequestFailed(*q),
        }
    }
}

impl View for Message {
    type V = MessageView;

    open spec fn view(&self) -> MessageView {
        match self {
            Message::Server(m) => MessageView::Server(m@),
            Message::Client(u, m) => MessageView::Client(*u, *m),
            Message::Relay(m) => MessageView::Relay(m@),
        }
    }
}

/// A copy of an optional text.
pub fn clone_opt_string(s: &Option<String>) -> (r: Option<String>)
    ensures
        r == *s,
{
    match s {
        Some(t) => Some(t.clone()),
        None => None,
    }
}

impl Clone for UserState {
    fn clone(&self) -> (r: Self)
        ensures
            r == *self,
    {
        match self {
            UserState::VideoNotSelected => UserState::VideoNotSelected,
            UserState::VideoSelected(v) => UserState::VideoSelected(v.clone()),
        }
    }
}

impl Clone for UserMeta {
    fn clone(&self) -> (r: Self)
        ensures
            r == *self,
    {
        UserMeta { id: self.id, name: self.name.clone(), state: self.state.clone() }
    }
}

impl Clone for Track {
    fn clone(&self) -> (r: Self)
        ensures
            r == *self,
    {
        Track { mid: clone_opt_string(&self.mid), track_name: clone_opt_string(&self.track_name) }
    }
}

/// A copy of a list of tracks.
pub fn clone_tracks(v: &Vec<Track>) -> (r: Vec<Track>)
    ensures
        r@ == v@,
{
    let mut r: Vec<Track> = Vec::new();
    let mut i: usize = 0;
    while i < v.len()
        invariant
            i <= v@.len(),
            r@ == v@.subrange(0, i as int),
        decreases v@.len() - i,
    {
        r.push(v[i].clone());
        assert(r@ =~= v@.subrange(0, i + 1));
        i = i + 1;
    }
    assert(r@ =~= v@);
    r
}

/// A copy of a list of participants.
pub fn clone_metas(v: &Vec<UserMeta>) -> (r: Vec<UserMeta>)
    ensures
        r@ == v@,
{
    let mut r: Vec<UserMeta> = Vec::new();
    let mut i: usize = 0;
    while i < v.len()
        invariant
            i <= v@.len(),
            r@ == v@.subrange(0, i as int),
        decreases v@.len() - i,
    {
        r.push(v[i].clone());
        assert(r@ =~= v@.subrange(0, i + 1));
        i = i + 1;
    }
    assert(r@ =~= v@);
    r
}

impl Clone for PublishSession {
    fn clone(&self) -> (r: Self)
        ensures
            r@ == self@,
    {
        PublishSession { session_id: self.session_id.clone(), tracks: clone_tracks(&self.tracks) }
    }
}

impl Clone for RoomInfo {
    fn clone(&self) -> (r: Self)
        ensures
            r@ == self@,
    {
        RoomInfo {
            room_id: self.room_id.clone(),
            user_id: self.user_id,
            users: clone_metas(&self.users),
            player_status: self.player_status,
        }
    }
}

impl Clone for UserJoined {
    fn clone(&self) -> (r: Self)
        ensures
            r@ == self@,
    {
        UserJoined {
            new_user: self.new_user,
            users: clone_metas(&self.users),
            player_status: self.player_status,
        }
    }
}

impl Clone for UserLeft {
    fn clone(&self) -> (r: Self)
        ensures
            r@ == self@,
    {
        UserLeft {
            user_left: self.user_left,
            users: clone_metas(&self.users),
            player_status: self.player_status,
        }
    }
}

impl Clone for ServerMessage {
    fn clone(&self) -> (r: Self)
        ensures
            r@ == self@,
    {
        match self {
            ServerMessage::RoomCreated(i) => ServerMessage::RoomCreated(i.clone()),
            ServerMessage::RoomJoined(i) => ServerMessage::RoomJoined(i.clone()),
            ServerMessage::UserJoined(j) => ServerMessage::UserJoined(j.clone()),
            ServerMessage::UserLeft(l) => ServerMessage::UserLeft(l.clone()),
        }
    }
}

impl Clone for ClientMessage {
    fn clone(&self) -> (r: Self)
        ensures
            r == *self,
    {
        match self {
            ClientMessage::Chat(s) => ClientMessage::Chat(s.clone()),
            ClientMessage::SelectedVideo(s) => ClientMessage::SelectedVideo(s.clone()),
            ClientMessage::Play(t) => ClientMessage::Play(*t),
            ClientMessage::Pause(t) => ClientMessage::Pause(*t),
            ClientMessage::Seek(t) => ClientMessage::Seek(*t),
            ClientMessage::Update(t) => ClientMessage::Update(*t),
        }
    }
}

impl Clone for RelayMessage {
    fn clone(&self) -> (r: Self)
        ensures
            r@ == self@,
    {
        match self {
            RelayMessage::PublishOffer(s, t) => RelayMessage::PublishOffer(s.clone(), clone_tracks(t)),
            RelayMessage::PublishAnswer(s) => RelayMessage::PublishAnswer(s.clone()),
            RelayMessage::RequestJoinOffer(s) => RelayMessage::RequestJoinOffer(s.clone()),
            RelayMessage::JoinAnswer(s) => RelayMessage::JoinAnswer(s.clone()),
            RelayMessage::RequestMediaRelay => RelayMessage::RequestMediaRelay,
            RelayMessage::MediaOffer(s) => RelayMessage::MediaOffer(s.clone()),
            RelayMessage::RenegotiateLocal(s) => RelayMessage::RenegotiateLocal(s.clone()),
            RelayMessage::RequestDataChannel(s) => RelayMessage::RequestDataChannel(s.clone()),
            RelayMessage::DataChannelReady(s, id) => RelayMessage::DataChannelReady(s.clone(), *id),
            RelayMessage::RequestFailed(q) => RelayMessage::RequestFailed(*q),
        }
    }
}

impl Clone for Message {
    fn clone(&self) -> (r: Self)
        ensures
            r@ == self@,
    {
        match self {
            Message::Server(m) => Message::Server(m.clone()),
            Message::Client(u, m) => Message::Client(*u, m.clone()),
            Message::Relay(m) => Message::Relay(m.clone()),
        }
    }
}

} // verus!
