use vstd::prelude::*;
use vstd::string::*;
use std::collections::{HashMap, HashSet};
use crate::chat::{ChatChannel, ChannelView, ChatMessage, MessageView, starts_with_hash, str_starts_with_hash};
use crate::multiplayer::{LobbyInfo, LobbyView, MultiplayerPacket, CurrentLobbyInfo};
use crate::notifications::{Notification, NotificationColor, NotificationView, OnClickView};

verus! {

broadcast use vstd::std_specs::hash::group_hash_axioms;

/// What a user is doing, as told to the server.
#[derive(Clone, Copy, Debug, PartialEq, Eq, Structural)]
pub enum UserAction {
    Idle,
    Ingame,
    Leaving,
}

/// A user that is online.
#[derive(Debug)]
pub struct OnlineUser {
    pub user_id: u32,
    pub username: String,
    /// the game client the user plays on
    pub game: String,
    pub friend: bool,
    pub action: Option<UserAction>,
    pub action_text: Option<String>,
    pub mode: Option<String>,
}

/// The mathematical value of an [`OnlineUser`].
#[verifier::ext_equal]
pub struct OnlineUserView {
    pub user_id: u32,
    pub username: Seq<char>,
    pub game: Seq<char>,
    pub friend: bool,
    pub action: Option<UserAction>,
    pub action_text: Option<Seq<char>>,
    pub mode: Option<Seq<char>>,
}

/// The view of an optional string.
pub open spec fn opt_view(s: Option<String>) -> Option<Seq<char>> {
    match s {
        Some(s) => Some(s@),
        None => None,
    }
}

impl View for OnlineUser {
    type V = OnlineUserView;

    open spec fn view(&self) -> OnlineUserView {
        OnlineUserView {
            user_id: self.user_id,
            username: self.username@,
            game: self.game@,
            friend: self.friend,
            action: self.action,
            action_text: opt_view(self.action_text),
            mode: opt_view(self.mode),
        }
    }
}

impl OnlineUser {
    /// A user that just came online, doing nothing known yet.
    pub fn new(user_id: u32, username: String, game: String) -> (u: OnlineUser)
        ensures
            u@ == (OnlineUserView {
                user_id,
                username: username@,
                game: game@,
                friend: false,
                action: None,
                action_text: None,
                mode: None,
            }),
    {
        OnlineUser { user_id, username, game, friend: false, action: None, action_text: None, mode: None }
    }
}

/// Login answers of the server.
#[derive(Clone, Copy, Debug, PartialEq, Eq, Structural)]
pub enum LoginStatus {
    UnknownError,
    BadPassword,
    NoUser,
    NotActivated,
    Success,
}

/// How serious a server notification is.
#[derive(Clone, Copy, Debug, PartialEq, Eq, Structural)]
pub enum Severity {
    Info,
    Warning,
    Error,
}

/// Chat packets from the server.
#[derive(Debug)]
pub enum ChatPacket {
    SendMessage { sender_id: u32, message: String, channel: String },
    FriendsList { friend_ids: Vec<u32> },
    UpdateFriend { friend_id: u32, is_friend: bool },
    Other,
}

/// Answers to a request to spectate someone.
#[derive(Clone, Copy, Debug, PartialEq, Eq, Structural)]
pub enum SpectateResult {
    Accepted,
    SpectatingBot,
    HostOffline,
    SpectatingYourself,
    Unknown,
}

/// Spectator packets from the server; `F` is a spectator frame.
#[derive(Debug)]
pub enum SpectatorPacket<F> {
    SpectatorFrames { frames: Vec<F> },
    SpectatorJoined { user_id: u32, username: String },
    SpectatorLeft { user_id: u32 },
    SpectateResult { result: SpectateResult },
    Other,
}

/// Packets from the server.
#[allow(inconsistent_fields)]
#[derive(Debug)]
pub enum ServerPacket<F> {
    Ping,
    Pong,
    LoginResponse { status: LoginStatus, user_id: u32 },
    Notification { message: String, severity: Severity },
    Error { error: String },
    UserJoined { user_id: u32, username: String, game: String },
    UserLeft { user_id: u32 },
    UserStatusUpdate { user_id: u32, action: UserAction, action_text: String, mode: String },
    ScoreUpdate,
    Chat { packet: ChatPacket },
    Spectator { host_id: u32, packet: SpectatorPacket<F> },
    LobbyInvite { inviter_id: u32, lobby: LobbyInfo },
    Multiplayer { packet: MultiplayerPacket },
    /// a packet this client does not know: the rest of the data is dropped
    Unknown,
}

/// Packets to send to the server.
#[derive(Debug)]
pub enum ClientPacket<F> {
    UserLogin { protocol_version: u16, game: String, username: String, password: String },
    Ping,
    Pong,
    GetFriends,
    StatusUpdate { action: UserAction, action_text: String, mode: String },
    LogOut,
    SpectatorFrames { host_id: u32, frames: Vec<F> },
    Spectate { host_id: u32 },
    LeaveSpectator { host_id: u32 },
}

/// What the online manager tells the game.
#[derive(Debug)]
pub enum OnlineEvent {
    LoggedIn { user_id: u32, username: String },
    Disconnected,
    SpectatorJoined { user_id: u32, username: String },
    SpectatorLeft { user_id: u32 },
    LobbyInvite { inviter_id: u32, inviter_username: String, lobby: LobbyInfo },
}

/// The mathematical value of an [`OnlineEvent`].
pub enum EventView {
    LoggedIn { user_id: u32, username: Seq<char> },
    Disconnected,
    SpectatorJoined { user_id: u32, username: Seq<char> },
    SpectatorLeft { user_id: u32 },
    LobbyInvite { inviter_id: u32, inviter_username: Seq<char>, lobby: LobbyView },
}

impl View for OnlineEvent {
    type V = EventView;

    open spec fn view(&self) -> EventView {
        match self {
            OnlineEvent::LoggedIn { user_id, username } => EventView::LoggedIn { user_id: *user_id, username: username@ },
            OnlineEvent::Disconnected => EventView::Disconnected,
            OnlineEvent::SpectatorJoined { user_id, username } =>
                EventView::SpectatorJoined { user_id: *user_id, username: username@ },
            OnlineEvent::SpectatorLeft { user_id } => EventView::SpectatorLeft { user_id: *user_id },
            OnlineEvent::LobbyInvite { inviter_id, inviter_username, lobby } => EventView::LobbyInvite {
                inviter_id: *inviter_id,
                inviter_username: inviter_username@,
                lobby: lobby@,
            },
        }
    }
}

/// The mathematical value of a [`ClientPacket`].
pub enum PacketView<F> {
    UserLogin { protocol_version: u16, game: Seq<char>, username: Seq<char>, password: Seq<char> },
    Ping,
    Pong,
    GetFriends,
    StatusUpdate { action: UserAction, action_text: Seq<char>, mode: Seq<char> },
    LogOut,
    SpectatorFrames { host_id: u32, frames: Seq<F> },
    Spectate { host_id: u32 },
    LeaveSpectator { host_id: u32 },
}

impl<F> View for ClientPacket<F> {
    type V = PacketView<F>;

    open spec fn view(&self) -> PacketView<F> {
        match self {
            ClientPacket::UserLogin { protocol_version, game, username, password } => PacketView::UserLogin {
                protocol_version: *protocol_version,
                game: game@,
                username: username@,
                password: password@,
            },
            ClientPacket::Ping => PacketView::Ping,
            ClientPacket::Pong => PacketView::Pong,
            ClientPacket::GetFriends => PacketView::GetFriends,
            ClientPacket::StatusUpdate { action, action_text, mode } =>
                PacketView::StatusUpdate { action: *action, action_text: action_text@, mode: mode@ },
            ClientPacket::LogOut => PacketView::LogOut,
            ClientPacket::SpectatorFrames { host_id, frames } =>
                PacketView::SpectatorFrames { host_id: *host_id, frames: frames@ },
            ClientPacket::Spectate { host_id } => PacketView::Spectate { host_id: *host_id },
            ClientPacket::LeaveSpectator { host_id } => PacketView::LeaveSpectator { host_id: *host_id },
        }
    }
}

/// What handling a packet asks of the game and of the connection.
#[derive(Debug)]
pub enum OnlineOutput<F> {
    Notify(Notification),
    Event(OnlineEvent),
    Send(ClientPacket<F>),
    /// start pinging the server every second
    StartPing,
}

/// The mathematical value of an [`OnlineOutput`].
pub enum OutputView<F> {
    Notify(NotificationView),
    Event(EventView),
    Send(PacketView<F>),
    StartPing,
}

impl<F> View for OnlineOutput<F> {
    type V = OutputView<F>;

    open spec fn view(&self) -> OutputView<F> {
        match self {
            OnlineOutput::Notify(n) => OutputView::Notify(n@),
            OnlineOutput::Event(e) => OutputView::Event(e@),
            OnlineOutput::Send(p) => OutputView::Send(p@),
            OnlineOutput::StartPing => OutputView::StartPing,
        }
    }
}

/// The views of a list of outputs.
pub open spec fn outputs_view<F>(s: Seq<OnlineOutput<F>>) -> Seq<OutputView<F>> {
    s.map_values(|o: OnlineOutput<F>| o@)
}

/// A notification output without a click action.
pub open spec fn notice<F>(text: Seq<char>, color: NotificationColor, duration_ms: u64) -> OutputView<F> {
    OutputView::Notify(NotificationView { text, color, duration_ms, onclick: OnClickView::Nothing })
}

/// The messages of one chat channel.
#[derive(Debug)]
pub struct ChatLog {
    pub channel: ChatChannel,
    pub messages: Vec<ChatMessage>,
}

/// The mathematical value of a [`ChatLog`].
#[verifier::ext_equal]
pub struct ChatLogView {
    pub channel: ChannelView,
    pub messages: Seq<MessageView>,
}

impl View for ChatLog {
    type V = ChatLogView;

    open spec fn view(&self) -> ChatLogView {
        ChatLogView { channel: self.channel@, messages: self.messages@.map_values(|m: ChatMessage| m@) }
    }
}

/// Someone watching a host play.
#[derive(Debug)]
pub struct Spectator {
    pub host_id: u32,
    pub user_id: u32,
    pub username: String,
}

/// The mathematical value of a [`Spectator`].
pub struct SpectatorView {
    pub host_id: u32,
    pub user_id: u32,
    pub username: Seq<char>,
}

impl View for Spectator {
    type V = SpectatorView;

    open spec fn view(&self) -> SpectatorView {
        SpectatorView { host_id: self.host_id, user_id: self.user_id, username: self.username@ }
    }
}

/// Spectating state: the frames of the hosts we watch, the frames we have yet to send
/// as a host, and who watches whom.
#[derive(Debug)]
pub struct SpectatorInfo<F> {
    /// our own user id, as a host
    pub host_id: u32,
    /// frames received for each host we spectate
    pub incoming_frames: HashMap<u32, Vec<F>>,
    /// our own frames waiting to be sent
    pub outgoing_frames: Vec<F>,
    /// when our frames were last sent, in milliseconds
    pub last_sent_ms: u64,
    pub spectators: Vec<Spectator>,
}

/// Spectator frames are sent once this many are waiting.
pub const SPECTATOR_BUFFER_FLUSH_SIZE: usize = 20;

/// Spectator frames are sent at least this often, in milliseconds.
pub const SPECTATOR_FLUSH_MS: u64 = 1000;

/// The connection to the game server, as the game sees it.
#[derive(Debug)]
pub struct OnlineManager<F> {
    pub connected: bool,
    /// users that are online, by user id
    pub users: HashMap<u32, OnlineUser>,
    /// user ids of our friends
    pub friends: HashSet<u32>,
    /// our user's id
    pub user_id: u32,
    /// are we successfully logged in?
    pub logged_in: bool,
    /// chat messages by channel
    pub chat_messages: Vec<ChatLog>,
    pub spectator_info: SpectatorInfo<F>,
    /// multiplayer packets waiting for the game
    pub multiplayer_packet_queue: Vec<MultiplayerPacket>,
}

/// The mathematical value of an [`OnlineManager`].
#[verifier::ext_equal]
pub struct OnlineView<F> {
    pub connected: bool,
    pub users: Map<u32, OnlineUserView>,
    pub friends: Set<u32>,
    pub user_id: u32,
    pub logged_in: bool,
    pub chat: Seq<ChatLogView>,
    pub spec_host: u32,
    pub incoming: Map<u32, Seq<F>>,
    pub outgoing: Seq<F>,
    pub last_sent_ms: u64,
    pub spectators: Seq<SpectatorView>,
    pub queue: Seq<MultiplayerPacket>,
}

/// Views of every user in a map of users.
pub open spec fn user_views(m: Map<u32, OnlineUser>) -> Map<u32, OnlineUserView> {
    m.map_values(|u: OnlineUser| u@)
}

/// Views of every frame list in a map of frame lists.
pub open spec fn frame_views<F>(m: Map<u32, Vec<F>>) -> Map<u32, Seq<F>> {
    m.map_values(|v: Vec<F>| v@)
}

impl<F> View for OnlineManager<F> {
    type V = OnlineView<F>;

    open spec fn view(&self) -> OnlineView<F> {
        OnlineView {
            connected: self.connected,
            users: user_views(self.users@),
            friends: self.friends@,
            user_id: self.user_id,
            logged_in: self.logged_in,
            chat: self.chat_messages@.map_values(|l: ChatLog| l@),
            spec_host: self.spectator_info.host_id,
            incoming: frame_views(self.spectator_info.incoming_frames@),
            outgoing: self.spectator_info.outgoing_frames@,
            last_sent_ms: self.spectator_info.last_sent_ms,
            spectators: self.spectator_info.spectators@.map_values(|s: Spectator| s@),
            queue: self.multiplayer_packet_queue@,
        }
    }
}

/// The username of a user, or `fallback` if the user is not online.
pub open spec fn name_or(users: Map<u32, OnlineUserView>, user_id: u32, fallback: Seq<char>) -> Seq<char> {
    if users.contains_key(user_id) { users[user_id].username } else { fallback }
}

/// A name with every leading `#` removed.
pub open spec fn trim_hashes(s: Seq<char>) -> Seq<char>
    decreases s.len(),
{
    if starts_with_hash(s) { trim_hashes(s.drop_first()) } else { s }
}

/// The channel a chat message was sent in: names beginning with `#` are channels
/// (stored without their leading `#`s), all others are users.
pub open spec fn message_channel(name: Seq<char>) -> ChannelView {
    if starts_with_hash(name) { ChannelView::Channel(trim_hashes(name)) } else { ChannelView::User(name) }
}

/// Whether `i` is the first log of the channel `c`.
pub open spec fn is_first_log(chat: Seq<ChatLogView>, c: ChannelView, i: int) -> bool {
    &&& 0 <= i < chat.len()
    &&& chat[i].channel == c
    &&& forall|j: int| 0 <= j < i ==> #[trigger] chat[j].channel != c
}

/// The chat with a message added to its channel's log, or to a new log at the end.
pub open spec fn with_message(chat: Seq<ChatLogView>, m: MessageView) -> Seq<ChatLogView> {
    if exists|i: int| is_first_log(chat, m.channel, i) {
        let i = choose|i: int| is_first_log(chat, m.channel, i);
        chat.update(i, ChatLogView { channel: chat[i].channel, messages: chat[i].messages.push(m) })
    } else {
        chat.push(ChatLogView { channel: m.channel, messages: seq![m] })
    }
}

/// The test that keeps every spectator entry but those of one user watching one host.
pub open spec fn not_spectator(host_id: u32, user_id: u32) -> spec_fn(SpectatorView) -> bool {
    |s: SpectatorView| !(s.host_id == host_id && s.user_id == user_id)
}

/// Applies `f` to the user with the given id, if that user is online.
pub open spec fn update_user(
    m: Map<u32, OnlineUserView>,
    user_id: u32,
    f: spec_fn(OnlineUserView) -> OnlineUserView,
) -> Map<u32, OnlineUserView> {
    if m.contains_key(user_id) { m.insert(user_id, f(m[user_id])) } else { m }
}

/// The ids in a list, as a set.
pub open spec fn id_set(ids: Seq<u32>) -> Set<u32> {
    Set::new(|k: u32| ids.contains(k))
}

/// Online users, with every one whose id is listed marked as a friend.
pub open spec fn mark_friends(m: Map<u32, OnlineUserView>, ids: Seq<u32>) -> Map<u32, OnlineUserView> {
    Map::new(
        |k: u32| m.contains_key(k),
        |k: u32| if ids.contains(k) { OnlineUserView { friend: true, ..m[k] } } else { m[k] },
    )
}

/// A user that just came online.
pub open spec fn joined_user(user_id: u32, username: Seq<char>, game: Seq<char>) -> OnlineUserView {
    OnlineUserView { user_id, username, game, friend: false, action: None, action_text: None, mode: None }
}

/// The color of a server notification of the given severity.
pub open spec fn severity_color(severity: Severity) -> NotificationColor {
    match severity {
        Severity::Info => NotificationColor::Green,
        Severity::Warning => NotificationColor::Yellow,
        Severity::Error => NotificationColor::Red,
    }
}

/// How long a server notification of the given severity stays, in milliseconds.
pub open spec fn severity_ms(severity: Severity) -> u64 {
    match severity {
        Severity::Info => 3000,
        Severity::Warning => 5000,
        Severity::Error => 7000,
    }
}

/// The text shown when a spectate request is refused.
pub open spec fn spectate_refusal(result: SpectateResult) -> Seq<char> {
    match result {
        SpectateResult::SpectatingBot => "You cannot spectate a bot!"@,
        SpectateResult::HostOffline => "Spectate host is offline!"@,
        SpectateResult::SpectatingYourself => "You cannot spectate yourself!"@,
        _ => "Unknown error trying to spectate!"@,
    }
}

/// The online state after one server packet, received at `now_ms`.
pub open spec fn after_packet<F>(s: OnlineView<F>, p: ServerPacket<F>, now_ms: u64) -> OnlineView<F> {
    match p {
        ServerPacket::LoginResponse { status, user_id } => if status == LoginStatus::Success {
            OnlineView {
                user_id,
                logged_in: true,
                spec_host: user_id,
                incoming: Map::empty(),
                outgoing: Seq::empty(),
                last_sent_ms: now_ms,
                spectators: Seq::empty(),
                ..s
            }
        } else {
            s
        },
        ServerPacket::UserJoined { user_id, username, game } =>
            OnlineView { users: s.users.insert(user_id, joined_user(user_id, username@, game@)), ..s },
        ServerPacket::UserLeft { user_id } => OnlineView {
            users: s.users.remove(user_id),
            spectators: s.spectators.filter(not_spectator(0, user_id)),
            ..s
        },
        ServerPacket::UserStatusUpdate { user_id, action, action_text, mode } => OnlineView {
            users: update_user(
                s.users,
                user_id,
                |u: OnlineUserView| OnlineUserView {
                    action: Some(action),
                    action_text: Some(action_text@),
                    mode: Some(mode@),
                    ..u
                },
            ),
            ..s
        },
        ServerPacket::Chat { packet } => match packet {
            ChatPacket::SendMessage { sender_id, message, channel } => OnlineView {
                chat: with_message(
                    s.chat,
                    MessageView {
                        sender: name_or(s.users, sender_id, Seq::empty()),
                        channel: message_channel(channel@),
                        sender_id,
                        timestamp: now_ms,
                        text: message@,
                    },
                ),
                ..s
            },
            ChatPacket::FriendsList { friend_ids } =>
                OnlineView { users: mark_friends(s.users, friend_ids@), friends: id_set(friend_ids@), ..s },
            ChatPacket::UpdateFriend { friend_id, is_friend } => OnlineView {
                users: update_user(s.users, friend_id, |u: OnlineUserView| OnlineUserView { friend: is_friend, ..u }),
                friends: if is_friend { s.friends.insert(friend_id) } else { s.friends.remove(friend_id) },
                ..s
            },
            ChatPacket::Other => s,
        },
        ServerPacket::Spectator { host_id, packet } => match packet {
            SpectatorPacket::SpectatorFrames { frames } => if s.incoming.contains_key(host_id) {
                OnlineView { incoming: s.incoming.insert(host_id, s.incoming[host_id] + frames@), ..s }
            } else {
                s
            },
            SpectatorPacket::SpectatorJoined { user_id, username } => OnlineView {
                spectators: s.spectators.filter(not_spectator(host_id, user_id)).push(
                    SpectatorView { host_id, user_id, username: username@ },
                ),
                ..s
            },
            SpectatorPacket::SpectatorLeft { user_id } =>
                OnlineView { spectators: s.spectators.filter(not_spectator(host_id, user_id)), ..s },
            SpectatorPacket::SpectateResult { result } => if result == SpectateResult::Accepted {
                OnlineView { incoming: s.incoming.insert(host_id, Seq::empty()), ..s }
            } else {
                s
            },
            SpectatorPacket::Other => s,
        },
        ServerPacket::Multiplayer { packet } => OnlineView { queue: s.queue.push(packet), ..s },
        _ => s,
    }
}

/// What handling one server packet asks of the game and the connection.
pub open spec fn packet_outputs<F>(s: OnlineView<F>, p: ServerPacket<F>) -> Seq<OutputView<F>> {
    match p {
        ServerPacket::Ping => seq![OutputView::Send(PacketView::Pong)],
        ServerPacket::LoginResponse { status, user_id } => match status {
            LoginStatus::UnknownError => seq![notice("[Login] Unknown error logging in"@, NotificationColor::Red, 5000)],
            LoginStatus::BadPassword => seq![notice("[Login] Authentication failed"@, NotificationColor::Red, 5000)],
            LoginStatus::NoUser => seq![notice("[Login] Authentication failed"@, NotificationColor::Red, 5000)],
            LoginStatus::NotActivated =>
                seq![notice("[Login] Your account is pending activation"@, NotificationColor::Yellow, 5000)],
            LoginStatus::Success => seq![
                notice("[Login] Logged in!"@, NotificationColor::Green, 2000),
                OutputView::Event(EventView::LoggedIn { user_id, username: Seq::empty() }),
                OutputView::StartPing,
                OutputView::Send(PacketView::GetFriends),
            ],
        },
        ServerPacket::Notification { message, severity } =>
            seq![notice(message@, severity_color(severity), severity_ms(severity))],
        ServerPacket::UserJoined { user_id, username, game } => if s.friends.contains(user_id) {
            seq![notice(username@ + " is online"@, NotificationColor::Blue, 5000)]
        } else {
            Seq::empty()
        },
        ServerPacket::UserLeft { user_id } => if s.users.contains_key(user_id) && s.friends.contains(user_id) {
            seq![notice(s.users[user_id].username + " is offline"@, NotificationColor::Blue, 5000)]
        } else {
            Seq::empty()
        },
        ServerPacket::Spectator { host_id, packet } => match packet {
            SpectatorPacket::SpectatorJoined { user_id, username } => seq![
                notice(username@ + " is now spectating"@, NotificationColor::Green, 2000),
                OutputView::Event(EventView::SpectatorJoined { user_id, username: username@ }),
            ],
            SpectatorPacket::SpectatorLeft { user_id } => seq![
                notice(name_or(s.users, user_id, "A user"@) + " stopped spectating"@, NotificationColor::Green, 2000),
                OutputView::Event(EventView::SpectatorLeft { user_id }),
            ],
            SpectatorPacket::SpectateResult { result } => if result == SpectateResult::Accepted {
                Seq::empty()
            } else {
                seq![notice(spectate_refusal(result), NotificationColor::Red, 3000)]
            },
            _ => Seq::empty(),
        },
        ServerPacket::LobbyInvite { inviter_id, lobby } => seq![
            OutputView::Event(EventView::LobbyInvite {
                inviter_id,
                inviter_username: name_or(s.users, inviter_id, "A user"@),
                lobby: lobby@,
            }),
        ],
        _ => Seq::empty(),
    }
}

/// The online state after a batch of packets: packets are handled in order, and an
/// unknown packet drops itself and everything after it.
pub open spec fn after_packets<F>(s: OnlineView<F>, ps: Seq<ServerPacket<F>>, now_ms: u64) -> OnlineView<F>
    decreases ps.len(),
{
    if ps.len() == 0 || ps[0] is Unknown {
        s
    } else {
        after_packets(after_packet(s, ps[0], now_ms), ps.drop_first(), now_ms)
    }
}

/// Everything a batch of packets asks of the game and the connection, in order.
pub open spec fn batch_outputs<F>(s: OnlineView<F>, ps: Seq<ServerPacket<F>>, now_ms: u64) -> Seq<OutputView<F>>
    decreases ps.len(),
{
    if ps.len() == 0 || ps[0] is Unknown {
        Seq::empty()
    } else {
        packet_outputs(s, ps[0]) + batch_outputs(after_packet(s, ps[0], now_ms), ps.drop_first(), now_ms)
    }
}

/// Appends one output.
fn push_output<F>(out: &mut Vec<OnlineOutput<F>>, o: OnlineOutput<F>)
    ensures
        outputs_view(final(out)@) == outputs_view(old(out)@).push(o@),
{
    out.push(o);
    assert(outputs_view(out@) =~= outputs_view(old(out)@).push(o@));
}

/// Appends a notification without a click action.
fn push_notice<F>(out: &mut Vec<OnlineOutput<F>>, text: String, color: NotificationColor, duration_ms: u64)
    ensures
        outputs_view(final(out)@) == outputs_view(old(out)@).push(notice(text@, color, duration_ms)),
{
    push_output(out, OnlineOutput::Notify(Notification::new_text(text, color, duration_ms)));
}

/// A name with every leading `#` removed.
pub fn trim_leading_hashes(name: &str) -> (r: String)
    ensures
        r@ == trim_hashes(name@),
{
    let len = name.unicode_len();
    let mut i: usize = 0;
    assert(name@.subrange(0, len as int) =~= name@);
    while i < len && name.get_char(i) == '#'
        invariant
            i <= len,
            len == name@.len(),
            trim_hashes(name@) == trim_hashes(name@.subrange(i as int, len as int)),
        decreases len - i,
    {
        assert(name@.subrange(i as int, len as int).drop_first() =~= name@.subrange(i + 1, len as int));
        i = i + 1;
    }
    let rest = name.substring_char(i, len);
    String::from_str(rest)
}

/// First index `i` with `is_first_log(chat, c, i)` is unique.
proof fn lemma_first_log_unique(chat: Seq<ChatLogView>, c: ChannelView, i: int, j: int)
    requires
        is_first_log(chat, c, i),
        is_first_log(chat, c, j),
    ensures
        i == j,
{
    if i < j {
        assert(chat[i].channel != c);
    } else if j < i {
        assert(chat[j].channel != c);
    }
}

impl<F> SpectatorInfo<F> {
    /// Fresh spectating state for the given host id, counting from `now_ms`.
    pub fn new(host_id: u32, now_ms: u64) -> (s: SpectatorInfo<F>)
        ensures
            s.host_id == host_id,
            s.incoming_frames@ == Map::<u32, Vec<F>>::empty(),
            s.outgoing_frames@ == Seq::<F>::empty(),
            s.last_sent_ms == now_ms,
            s.spectators@ == Seq::<Spectator>::empty(),
    {
        SpectatorInfo {
            host_id,
            incoming_frames: HashMap::new(),
            outgoing_frames: Vec::new(),
            last_sent_ms: now_ms,
            spectators: Vec::new(),
        }
    }
}

impl<F> OnlineManager<F> {
    /// Not connected, nobody online, and a general channel with a greeting from the system.
    pub fn new() -> (m: OnlineManager<F>)
        ensures
            !m@.connected,
            !m@.logged_in,
            m@.user_id == 0,
            m@.users == Map::<u32, OnlineUserView>::empty(),
            m@.friends == Set::<u32>::empty(),
            m@.chat.len() == 1,
            m@.chat[0].channel == ChannelView::Channel("general"@),
            m@.chat[0].messages.len() == 1,
            m@.chat[0].messages[0].sender == "System"@,
            m@.chat[0].messages[0].channel == ChannelView::Channel("general"@),
            m@.chat[0].messages[0].sender_id == u32::MAX,
            m@.chat[0].messages[0].text == "this is a test message"@,
            m@.spec_host == 0,
            m@.incoming == Map::<u32, Seq<F>>::empty(),
            m@.outgoing == Seq::<F>::empty(),
            m@.spectators == Seq::<SpectatorView>::empty(),
            m@.queue == Seq::<MultiplayerPacket>::empty(),
    {
        let channel = ChatChannel::Channel { name: String::from_str("general") };
        let message = ChatMessage::new(
            String::from_str("System"),
            ChatChannel::Channel { name: String::from_str("general") },
            u32::MAX,
            String::from_str("this is a test message"),
        );
        let mut messages: Vec<ChatMessage> = Vec::new();
        messages.push(message);
        let mut chat_messages: Vec<ChatLog> = Vec::new();
        chat_messages.push(ChatLog { channel, messages });
        let m = OnlineManager {
            connected: false,
            users: HashMap::new(),
            friends: HashSet::new(),
            user_id: 0,
            logged_in: false,
            chat_messages,
            spectator_info: SpectatorInfo::new(0, 0),
            multiplayer_packet_queue: Vec::new(),
        };
        assert(m@.users =~= Map::<u32, OnlineUserView>::empty());
        assert(m@.incoming =~= Map::<u32, Seq<F>>::empty());
        assert(m@.spectators =~= Seq::<SpectatorView>::empty());
        m
    }

    /// The online user with the given id, if any.
    pub fn find_user_by_id(&self, user_id: u32) -> (u: Option<&OnlineUser>)
        ensures
            match u {
                Some(u) => self@.users.contains_key(user_id) && u@ == self@.users[user_id],
                None => !self@.users.contains_key(user_id),
            },
    {
        self.users.get(&user_id)
    }

    /// The username of an online user, if the user is online.
    fn user_name(&self, user_id: u32) -> (r: Option<String>)
        ensures
            match r {
                Some(n) => self@.users.contains_key(user_id) && n@ == self@.users[user_id].username,
                None => !self@.users.contains_key(user_id),
            },
    {
        match self.users.get(&user_id) {
            Some(u) => Some(u.username.clone()),
            None => None,
        }
    }

    /// The username of an online user, or `"A user"`.
    fn name_or_a_user(&self, user_id: u32) -> (r: String)
        ensures
            r@ == name_or(self@.users, user_id, "A user"@),
    {
        match self.user_name(user_id) {
            Some(n) => n,
            None => String::from_str("A user"),
        }
    }

    /// Stores a user under the given id.
    fn put_user(&mut self, user_id: u32, user: OnlineUser)
        ensures
            final(self)@ == (OnlineView { users: old(self)@.users.insert(user_id, user@), ..old(self)@ }),
    {
        let ghost before = self.users@;
        self.users.insert(user_id, user);
        assert(user_views(self.users@) =~= user_views(before).insert(user_id, user@));
        assert(self@ =~= OnlineView { users: old(self)@.users.insert(user_id, user@), ..old(self)@ });
    }

    /// Takes a user out of the online list.
    fn take_user(&mut self, user_id: u32) -> (r: Option<OnlineUser>)
        ensures
            final(self)@ == (OnlineView { users: old(self)@.users.remove(user_id), ..old(self)@ }),
            match r {
                Some(u) => old(self)@.users.contains_key(user_id) && u@ == old(self)@.users[user_id],
                None => !old(self)@.users.contains_key(user_id),
            },
    {
        let ghost before = self.users@;
        let r = self.users.remove(&user_id);
        assert(user_views(self.users@) =~= user_views(before).remove(user_id));
        assert(self@ =~= OnlineView { users: old(self)@.users.remove(user_id), ..old(self)@ });
        r
    }
}

impl<F> OnlineManager<F> {
    /// The server's answer to our login.
    fn handle_login(&mut self, status: LoginStatus, user_id: u32, now_ms: u64, out: &mut Vec<OnlineOutput<F>>)
        ensures
            final(self)@ == after_packet(old(self)@, ServerPacket::<F>::LoginResponse { status, user_id }, now_ms),
            outputs_view(final(out)@) == outputs_view(old(out)@) + packet_outputs(
                old(self)@,
                ServerPacket::<F>::LoginResponse { status, user_id },
            ),
    {
        let ghost o = outputs_view(out@);
        match status {
            LoginStatus::UnknownError => {
                push_notice(out, String::from_str("[Login] Unknown error logging in"), NotificationColor::Red, 5000);
            },
            LoginStatus::BadPassword => {
                push_notice(out, String::from_str("[Login] Authentication failed"), NotificationColor::Red, 5000);
            },
            LoginStatus::NoUser => {
                push_notice(out, String::from_str("[Login] Authentication failed"), NotificationColor::Red, 5000);
            },
            LoginStatus::NotActivated => {
                push_notice(
                    out,
                    String::from_str("[Login] Your account is pending activation"),
                    NotificationColor::Yellow,
                    5000,
                );
            },
            LoginStatus::Success => {
                self.user_id = user_id;
                self.logged_in = true;
                self.spectator_info = SpectatorInfo::new(user_id, now_ms);
                push_notice(out, String::from_str("[Login] Logged in!"), NotificationColor::Green, 2000);
                push_output(out, OnlineOutput::Event(OnlineEvent::LoggedIn { user_id, username: String::new() }));
                push_output(out, OnlineOutput::StartPing);
                push_output(out, OnlineOutput::Send(ClientPacket::GetFriends));
                assert(self@.incoming =~= Map::<u32, Seq<F>>::empty());
                assert(self@.spectators =~= Seq::<SpectatorView>::empty());
            },
        }
        assert(outputs_view(out@) =~= o + packet_outputs(
            old(self)@,
            ServerPacket::<F>::LoginResponse { status, user_id },
        ));
        assert(self@ =~= after_packet(old(self)@, ServerPacket::<F>::LoginResponse { status, user_id }, now_ms));
    }

    /// A user came online.
    fn handle_user_joined(&mut self, user_id: u32, username: String, game: String, out: &mut Vec<OnlineOutput<F>>)
        ensures
            final(self)@ == (OnlineView {
                users: old(self)@.users.insert(user_id, joined_user(user_id, username@, game@)),
                ..old(self)@
            }),
            outputs_view(final(out)@) == outputs_view(old(out)@) + (if old(self)@.friends.contains(user_id) {
                seq![notice::<F>(username@ + " is online"@, NotificationColor::Blue, 5000)]
            } else {
                Seq::<OutputView<F>>::empty()
            }),
    {
        let ghost o = outputs_view(out@);
        let mut text = username.clone();
        text.append(" is online");
        self.put_user(user_id, OnlineUser::new(user_id, username, game));
        if self.friends.contains(&user_id) {
            push_notice(out, text, NotificationColor::Blue, 5000);
        }
        assert(outputs_view(out@) =~= o + (if old(self)@.friends.contains(user_id) {
            seq![notice::<F>(username@ + " is online"@, NotificationColor::Blue, 5000)]
        } else {
            Seq::<OutputView<F>>::empty()
        }));
    }

    /// Removes every entry of one user watching one host.
    pub fn remove_spec(&mut self, host_id: u32, user_id: u32)
        ensures
            final(self)@ == (OnlineView {
                spectators: old(self)@.spectators.filter(not_spectator(host_id, user_id)),
                ..old(self)@
            }),
    {
        let mut specs: Vec<Spectator> = Vec::new();
        std::mem::swap(&mut specs, &mut self.spectator_info.spectators);
        let ghost views = specs@.map_values(|s: Spectator| s@);
        let mut kept: Vec<Spectator> = Vec::new();
        assert(views.take(0).filter(not_spectator(host_id, user_id)) =~= Seq::<SpectatorView>::empty()) by {
            reveal(Seq::filter);
        }
        for s in it: specs
            invariant
                it.seq() == specs@,
                views == specs@.map_values(|s: Spectator| s@),
                kept@.map_values(|s: Spectator| s@) == views.take(it.index() as int).filter(
                    not_spectator(host_id, user_id),
                ),
        {
            let ghost i = it.index();
            proof { reveal(Seq::filter); }
            assert(views.take(i + 1).drop_last() =~= views.take(i as int));
            assert(s@ == views[i as int]);
            let ghost before = kept@.map_values(|s: Spectator| s@);
            if !(s.host_id == host_id && s.user_id == user_id) {
                kept.push(s);
                assert(kept@.map_values(|s: Spectator| s@) =~= before.push(views[i as int]));
            }
        }
        assert(views.take(views.len() as int) =~= views);
        self.spectator_info.spectators = kept;
        assert(self@ =~= OnlineView {
            spectators: old(self)@.spectators.filter(not_spectator(host_id, user_id)),
            ..old(self)@
        });
    }

    /// Records that a user watches a host, replacing an earlier entry of the same pair.
    pub fn add_spec(&mut self, host_id: u32, user_id: u32, username: String)
        ensures
            final(self)@ == (OnlineView {
                spectators: old(self)@.spectators.filter(not_spectator(host_id, user_id)).push(
                    SpectatorView { host_id, user_id, username: username@ },
                ),
                ..old(self)@
            }),
    {
        self.remove_spec(host_id, user_id);
        let ghost mid = self@;
        self.spectator_info.spectators.push(Spectator { host_id, user_id, username });
        assert(self@.spectators =~= mid.spectators.push(SpectatorView { host_id, user_id, username: username@ }));
        assert(self@ =~= OnlineView {
            spectators: old(self)@.spectators.filter(not_spectator(host_id, user_id)).push(
                SpectatorView { host_id, user_id, username: username@ },
            ),
            ..old(self)@
        });
    }

    /// A user went offline.
    fn handle_user_left(&mut self, user_id: u32, out: &mut Vec<OnlineOutput<F>>)
        ensures
            final(self)@ == after_packet(old(self)@, ServerPacket::<F>::UserLeft { user_id }, 0),
            outputs_view(final(out)@) == outputs_view(old(out)@) + packet_outputs(
                old(self)@,
                ServerPacket::<F>::UserLeft { user_id },
            ),
    {
        let ghost o = outputs_view(out@);
        if let Some(u) = self.take_user(user_id) {
            if self.friends.contains(&user_id) {
                let mut text = u.username;
                text.append(" is offline");
                push_notice(out, text, NotificationColor::Blue, 5000);
            }
        }
        self.remove_spec(0, user_id);
        assert(outputs_view(out@) =~= o + packet_outputs(old(self)@, ServerPacket::<F>::UserLeft { user_id }));
        assert(self@ =~= after_packet(old(self)@, ServerPacket::<F>::UserLeft { user_id }, 0));
    }

    /// A user's status changed.
    fn handle_status_update(&mut self, user_id: u32, action: UserAction, action_text: String, mode: String)
        ensures
            final(self)@ == after_packet(
                old(self)@,
                ServerPacket::<F>::UserStatusUpdate { user_id, action, action_text, mode },
                0,
            ),
    {
        let ghost before = self@;
        if let Some(mut u) = self.take_user(user_id) {
            u.action = Some(action);
            u.action_text = Some(action_text);
            u.mode = Some(mode);
            self.put_user(user_id, u);
            assert(self@.users =~= update_user(
                before.users,
                user_id,
                |u: OnlineUserView| OnlineUserView {
                    action: Some(action),
                    action_text: Some(action_text@),
                    mode: Some(mode@),
                    ..u
                },
            ));
        } else {
            assert(self@.users =~= before.users);
        }
        assert(self@ =~= after_packet(
            old(self)@,
            ServerPacket::<F>::UserStatusUpdate { user_id, action, action_text, mode },
            0,
        ));
    }
}

/// Whether a sequence contains an id, split at its last element.
proof fn lemma_take_contains(ids: Seq<u32>, i: int, k: u32)
    requires
        0 <= i < ids.len(),
    ensures
        ids.take(i + 1).contains(k) <==> (ids.take(i).contains(k) || k == ids[i]),
{
    if ids.take(i + 1).contains(k) {
        let j = choose|j: int| 0 <= j < i + 1 && #[trigger] ids.take(i + 1)[j] == k;
        if j < i {
            assert(ids.take(i)[j] == k);
        }
    }
    if ids.take(i).contains(k) {
        let j = choose|j: int| 0 <= j < i && #[trigger] ids.take(i)[j] == k;
        assert(ids.take(i + 1)[j] == k);
    }
    if k == ids[i] {
        assert(ids.take(i + 1)[i] == k);
    }
}

impl<F> OnlineManager<F> {
    /// Adds a message to its channel's log, opening a new log for a new channel.
    pub fn add_chat_message(&mut self, message: ChatMessage)
        ensures
            final(self)@ == (OnlineView { chat: with_message(old(self)@.chat, message@), ..old(self)@ }),
    {
        let ghost chat = self@.chat;
        let n = self.chat_messages.len();
        let mut i: usize = 0;
        let mut found = false;
        while i < n
            invariant_except_break
                forall|j: int| 0 <= j < i ==> #[trigger] chat[j].channel != message@.channel,
            invariant
                n == self.chat_messages@.len(),
                chat == self.chat_messages@.map_values(|l: ChatLog| l@),
                i <= n,
                found ==> is_first_log(chat, message@.channel, i as int),
            ensures
                found ==> is_first_log(chat, message@.channel, i as int),
                !found ==> forall|j: int| 0 <= j < n ==> #[trigger] chat[j].channel != message@.channel,
            decreases n - i,
        {
            if self.chat_messages[i].channel.same_as(&message.channel) {
                found = true;
                break;
            }
            i = i + 1;
        }
        let ghost m = message@;
        if found {
            let mut log = self.chat_messages.remove(i);
            let ghost old_log = log@;
            log.messages.push(message);
            assert(log.messages@.map_values(|x: ChatMessage| x@) =~= old_log.messages.push(m));
            self.chat_messages.insert(i, log);
            proof {
                assert forall|j: int| is_first_log(chat, m.channel, j) implies j == i by {
                    lemma_first_log_unique(chat, m.channel, i as int, j);
                }
            }
            assert(self@.chat =~= with_message(chat, m));
        } else {
            let mut messages: Vec<ChatMessage> = Vec::new();
            let channel = message.channel.duplicate();
            messages.push(message);
            let log = ChatLog { channel, messages };
            assert(log@.messages =~= seq![m]);
            self.chat_messages.push(log);
            assert(!exists|j: int| is_first_log(chat, m.channel, j));
            assert(self@.chat =~= with_message(chat, m));
        }
        assert(self@ =~= OnlineView { chat: with_message(old(self)@.chat, message@), ..old(self)@ });
    }

    /// A chat message arrived.
    fn handle_chat_message(&mut self, sender_id: u32, message: String, channel: String, now_ms: u64)
        ensures
            final(self)@ == after_packet(
                old(self)@,
                ServerPacket::<F>::Chat { packet: ChatPacket::SendMessage { sender_id, message, channel } },
                now_ms,
            ),
    {
        let ghost ch = channel@;
        let chat_channel = if str_starts_with_hash(channel.as_str()) {
            ChatChannel::Channel { name: trim_leading_hashes(channel.as_str()) }
        } else {
            ChatChannel::User { username: channel }
        };
        assert(chat_channel@ == message_channel(ch));
        let sender = match self.user_name(sender_id) {
            Some(n) => n,
            None => String::new(),
        };
        let m = ChatMessage::new_at(sender, chat_channel, sender_id, message, now_ms);
        self.add_chat_message(m);
    }

    /// The server sent our friends list.
    fn handle_friends_list(&mut self, friend_ids: Vec<u32>)
        ensures
            final(self)@ == after_packet(
                old(self)@,
                ServerPacket::<F>::Chat { packet: ChatPacket::FriendsList { friend_ids } },
                0,
            ),
    {
        let ghost before = self@;
        let ghost ids = friend_ids@;
        let mut friends: HashSet<u32> = HashSet::new();
        assert(mark_friends(before.users, ids.take(0)) =~= before.users);
        assert(id_set(ids.take(0)) =~= Set::<u32>::empty());
        for i in 0..friend_ids.len()
            invariant
                ids == friend_ids@,
                self@ == (OnlineView { users: mark_friends(before.users, ids.take(i as int)), ..before }),
                friends@ == id_set(ids.take(i as int)),
        {
            let id = friend_ids[i];
            let ghost mid = self@.users;
            proof {
                assert forall|k: u32| ids.take(i + 1).contains(k) <==> (ids.take(i as int).contains(k) || k == id) by {
                    lemma_take_contains(ids, i as int, k);
                }
            }
            if let Some(mut u) = self.take_user(id) {
                u.friend = true;
                self.put_user(id, u);
                assert(self@.users =~= mark_friends(before.users, ids.take(i + 1)));
            } else {
                assert(self@.users =~= mark_friends(before.users, ids.take(i + 1)));
            }
            friends.insert(id);
            assert(friends@ =~= id_set(ids.take(i + 1)));
            assert(self@ =~= OnlineView { users: mark_friends(before.users, ids.take(i + 1)), ..before });
        }
        assert(ids.take(ids.len() as int) =~= ids);
        self.friends = friends;
        assert(self@ =~= after_packet(
            old(self)@,
            ServerPacket::<F>::Chat { packet: ChatPacket::FriendsList { friend_ids } },
            0,
        ));
    }

    /// A user became, or stopped being, our friend.
    fn handle_update_friend(&mut self, friend_id: u32, is_friend: bool)
        ensures
            final(self)@ == after_packet(
                old(self)@,
                ServerPacket::<F>::Chat { packet: ChatPacket::UpdateFriend { friend_id, is_friend } },
                0,
            ),
    {
        let ghost before = self@;
        if let Some(mut u) = self.take_user(friend_id) {
            u.friend = is_friend;
            self.put_user(friend_id, u);
        }
        assert(self@.users =~= update_user(
            before.users,
            friend_id,
            |u: OnlineUserView| OnlineUserView { friend: is_friend, ..u },
        ));
        if is_friend {
            self.friends.insert(friend_id);
        } else {
            self.friends.remove(&friend_id);
        }
        assert(self@ =~= after_packet(
            old(self)@,
            ServerPacket::<F>::Chat { packet: ChatPacket::UpdateFriend { friend_id, is_friend } },
            0,
        ));
    }
}

impl<F> OnlineManager<F> {
    /// Stores the frame list of a host.
    fn put_frames(&mut self, host_id: u32, frames: Vec<F>)
        ensures
            final(self)@ == (OnlineView { incoming: old(self)@.incoming.insert(host_id, frames@), ..old(self)@ }),
    {
        let ghost before = self.spectator_info.incoming_frames@;
        self.spectator_info.incoming_frames.insert(host_id, frames);
        assert(frame_views(self.spectator_info.incoming_frames@) =~= frame_views(before).insert(host_id, frames@));
        assert(self@ =~= OnlineView { incoming: old(self)@.incoming.insert(host_id, frames@), ..old(self)@ });
    }

    /// Takes the frame list of a host out of the spectating state.
    fn take_frames(&mut self, host_id: u32) -> (r: Option<Vec<F>>)
        ensures
            final(self)@ == (OnlineView { incoming: old(self)@.incoming.remove(host_id), ..old(self)@ }),
            match r {
                Some(v) => old(self)@.incoming.contains_key(host_id) && v@ == old(self)@.incoming[host_id],
                None => !old(self)@.incoming.contains_key(host_id),
            },
    {
        let ghost before = self.spectator_info.incoming_frames@;
        let r = self.spectator_info.incoming_frames.remove(&host_id);
        assert(frame_views(self.spectator_info.incoming_frames@) =~= frame_views(before).remove(host_id));
        assert(self@ =~= OnlineView { incoming: old(self)@.incoming.remove(host_id), ..old(self)@ });
        r
    }

    /// Starts collecting frames of a host we were allowed to spectate.
    pub fn add_host(&mut self, host_id: u32)
        ensures
            final(self)@ == (OnlineView { incoming: old(self)@.incoming.insert(host_id, Seq::empty()), ..old(self)@ }),
    {
        self.put_frames(host_id, Vec::new());
    }

    /// Stops collecting frames of a host.
    pub fn remove_host(&mut self, host_id: u32)
        ensures
            final(self)@ == (OnlineView { incoming: old(self)@.incoming.remove(host_id), ..old(self)@ }),
    {
        let _ = self.take_frames(host_id);
    }

    /// Frames of a host we spectate arrived; frames of any other host are dropped.
    fn handle_spectator_frames(&mut self, host_id: u32, frames: Vec<F>)
        ensures
            final(self)@ == after_packet(
                old(self)@,
                ServerPacket::<F>::Spectator { host_id, packet: SpectatorPacket::SpectatorFrames { frames } },
                0,
            ),
    {
        let ghost new_frames = frames@;
        let ghost given = frames;
        let mut frames = frames;
        if let Some(mut v) = self.take_frames(host_id) {
            v.append(&mut frames);
            self.put_frames(host_id, v);
            assert(self@.incoming =~= old(self)@.incoming.insert(host_id, old(self)@.incoming[host_id] + new_frames));
        }
        assert(self@ =~= after_packet(
            old(self)@,
            ServerPacket::<F>::Spectator { host_id, packet: SpectatorPacket::SpectatorFrames { frames: given } },
            0,
        ));
    }

    /// Someone started or stopped watching a host, or the server answered a spectate request.
    fn handle_spectator_packet(&mut self, host_id: u32, packet: SpectatorPacket<F>, out: &mut Vec<OnlineOutput<F>>)
        ensures
            final(self)@ == after_packet(old(self)@, ServerPacket::<F>::Spectator { host_id, packet }, 0),
            outputs_view(final(out)@) == outputs_view(old(out)@) + packet_outputs(
                old(self)@,
                ServerPacket::<F>::Spectator { host_id, packet },
            ),
    {
        let ghost o = outputs_view(out@);
        let ghost p = packet;
        match packet {
            SpectatorPacket::SpectatorFrames { frames } => {
                self.handle_spectator_frames(host_id, frames);
            },
            SpectatorPacket::SpectatorJoined { user_id, username } => {
                let mut text = username.clone();
                text.append(" is now spectating");
                self.add_spec(host_id, user_id, username.clone());
                push_notice(out, text, NotificationColor::Green, 2000);
                push_output(out, OnlineOutput::Event(OnlineEvent::SpectatorJoined { user_id, username }));
            },
            SpectatorPacket::SpectatorLeft { user_id } => {
                let mut text = self.name_or_a_user(user_id);
                text.append(" stopped spectating");
                self.remove_spec(host_id, user_id);
                push_notice(out, text, NotificationColor::Green, 2000);
                push_output(out, OnlineOutput::Event(OnlineEvent::SpectatorLeft { user_id }));
            },
            SpectatorPacket::SpectateResult { result } => {
                match result {
                    SpectateResult::Accepted => self.add_host(host_id),
                    SpectateResult::SpectatingBot => push_notice(
                        out,
                        String::from_str("You cannot spectate a bot!"),
                        NotificationColor::Red,
                        3000,
                    ),
                    SpectateResult::HostOffline => push_notice(
                        out,
                        String::from_str("Spectate host is offline!"),
                        NotificationColor::Red,
                        3000,
                    ),
                    SpectateResult::SpectatingYourself => push_notice(
                        out,
                        String::from_str("You cannot spectate yourself!"),
                        NotificationColor::Red,
                        3000,
                    ),
                    SpectateResult::Unknown => push_notice(
                        out,
                        String::from_str("Unknown error trying to spectate!"),
                        NotificationColor::Red,
                        3000,
                    ),
                }
            },
            SpectatorPacket::Other => {},
        }
        assert(outputs_view(out@) =~= o + packet_outputs(old(self)@, ServerPacket::<F>::Spectator { host_id, packet: p }));
        assert(self@ =~= after_packet(old(self)@, ServerPacket::<F>::Spectator { host_id, packet: p }, 0));
    }

    /// Handles one server packet received at `now_ms`, appending what it asks of the game
    /// and of the connection to `out`. Returns `false` for a packet this client does not
    /// know, after which the rest of the server's data must be dropped.
    pub fn handle_packet(&mut self, packet: ServerPacket<F>, now_ms: u64, out: &mut Vec<OnlineOutput<F>>) -> (keep_going: bool)
        ensures
            final(self)@ == after_packet(old(self)@, packet, now_ms),
            outputs_view(final(out)@) == outputs_view(old(out)@) + packet_outputs(old(self)@, packet),
            keep_going == !(packet is Unknown),
    {
        let ghost o = outputs_view(out@);
        let ghost p = packet;
        match packet {
            ServerPacket::Ping => {
                push_output(out, OnlineOutput::Send(ClientPacket::Pong));
            },
            ServerPacket::Pong => {},
            ServerPacket::LoginResponse { status, user_id } => {
                self.handle_login(status, user_id, now_ms, out);
            },
            ServerPacket::Notification { message, severity } => {
                let (color, duration_ms) = match severity {
                    Severity::Info => (NotificationColor::Green, 3000),
                    Severity::Warning => (NotificationColor::Yellow, 5000),
                    Severity::Error => (NotificationColor::Red, 7000),
                };
                push_notice(out, message, color, duration_ms);
            },
            ServerPacket::Error { error } => {},
            ServerPacket::UserJoined { user_id, username, game } => {
                self.handle_user_joined(user_id, username, game, out);
            },
            ServerPacket::UserLeft { user_id } => {
                self.handle_user_left(user_id, out);
            },
            ServerPacket::UserStatusUpdate { user_id, action, action_text, mode } => {
                self.handle_status_update(user_id, action, action_text, mode);
            },
            ServerPacket::ScoreUpdate => {},
            ServerPacket::Chat { packet } => match packet {
                ChatPacket::SendMessage { sender_id, message, channel } => {
                    self.handle_chat_message(sender_id, message, channel, now_ms);
                },
                ChatPacket::FriendsList { friend_ids } => {
                    self.handle_friends_list(friend_ids);
                },
                ChatPacket::UpdateFriend { friend_id, is_friend } => {
                    self.handle_update_friend(friend_id, is_friend);
                },
                ChatPacket::Other => {},
            },
            ServerPacket::Spectator { host_id, packet } => {
                self.handle_spectator_packet(host_id, packet, out);
            },
            ServerPacket::LobbyInvite { inviter_id, lobby } => {
                let inviter_username = self.name_or_a_user(inviter_id);
                push_output(out, OnlineOutput::Event(OnlineEvent::LobbyInvite { inviter_id, inviter_username, lobby }));
            },
            ServerPacket::Multiplayer { packet } => {
                self.multiplayer_packet_queue.push(packet);
            },
            ServerPacket::Unknown => {
                assert(outputs_view(out@) =~= o + packet_outputs(old(self)@, p));
                return false;
            },
        }
        assert(outputs_view(out@) =~= o + packet_outputs(old(self)@, p));
        assert(self@ =~= after_packet(old(self)@, p, now_ms));
        true
    }

    /// Handles a batch of server packets received at `now_ms`, in order, and returns what
    /// they ask of the game and of the connection. An unknown packet drops itself and the
    /// rest of the batch.
    pub fn handle_packets(&mut self, packets: Vec<ServerPacket<F>>, now_ms: u64) -> (out: Vec<OnlineOutput<F>>)
        ensures
            final(self)@ == after_packets(old(self)@, packets@, now_ms),
            outputs_view(out@) == batch_outputs(old(self)@, packets@, now_ms),
    {
        let ghost start = self@;
        let ghost ps = packets@;
        let mut out: Vec<OnlineOutput<F>> = Vec::new();
        let mut stopped = false;
        assert(ps.skip(0) =~= ps);
        assert(outputs_view(out@) + batch_outputs(self@, ps.skip(0), now_ms) =~= batch_outputs(start, ps, now_ms));
        for packet in it: packets
            invariant
                it.seq() == ps,
                stopped ==> self@ == after_packets(start, ps, now_ms)
                    && outputs_view(out@) == batch_outputs(start, ps, now_ms),
                !stopped ==> after_packets(self@, ps.skip(it.index() as int), now_ms) == after_packets(start, ps, now_ms)
                    && outputs_view(out@) + batch_outputs(self@, ps.skip(it.index() as int), now_ms)
                        == batch_outputs(start, ps, now_ms),
        {
            let ghost i = it.index();
            if !stopped {
                let ghost rest = ps.skip(i as int);
                let ghost cur = self@;
                let ghost o = outputs_view(out@);
                assert(rest[0] == packet);
                assert(rest.drop_first() =~= ps.skip(i + 1));
                if !self.handle_packet(packet, now_ms, &mut out) {
                    stopped = true;
                    assert(outputs_view(out@) =~= o);
                    assert(batch_outputs(cur, rest, now_ms) =~= Seq::<OutputView<F>>::empty());
                    assert(o + Seq::<OutputView<F>>::empty() =~= o);
                } else {
                    assert(o + batch_outputs(cur, rest, now_ms) =~= outputs_view(out@) + batch_outputs(
                        self@,
                        ps.skip(i + 1),
                        now_ms,
                    ));
                }
            }
        }
        if !stopped {
            assert(ps.skip(ps.len() as int) =~= Seq::<ServerPacket<F>>::empty());
            assert(outputs_view(out@) + Seq::<OutputView<F>>::empty() =~= outputs_view(out@));
        }
        out
    }
}

/// What our user is doing, to tell the server.
#[derive(Debug)]
pub enum SetAction {
    Idle,
    Closing,
    Listening { artist: String, title: String, elapsed_ms: u64, duration_ms: u64 },
    Playing {
        artist: String,
        title: String,
        version: String,
        creator: String,
        multiplayer_lobby_name: Option<String>,
        start_time: i64,
    },
    Spectating { player: String, artist: String, title: String, creator: String, version: String },
}

/// The user action the server is told for a [`SetAction`].
pub open spec fn spec_user_action(a: SetAction) -> UserAction {
    match a {
        SetAction::Idle => UserAction::Idle,
        SetAction::Closing => UserAction::Leaving,
        SetAction::Playing { .. } => UserAction::Ingame,
        SetAction::Listening { .. } => UserAction::Idle,
        SetAction::Spectating { .. } => UserAction::Ingame,
    }
}

/// The status text the server is told for a [`SetAction`].
pub open spec fn spec_action_text(a: SetAction) -> Seq<char> {
    match a {
        SetAction::Idle => "Idle"@,
        SetAction::Closing => "Closing"@,
        SetAction::Listening { artist, title, .. } => "Listening to "@ + artist@ + " - "@ + title@,
        SetAction::Spectating { player, artist, title, version, .. } =>
            "Watching "@ + player@ + " play "@ + artist@ + " - "@ + title@ + "["@ + version@ + "]"@,
        SetAction::Playing { artist, title, version, .. } =>
            "Playing "@ + artist@ + " - "@ + title@ + "["@ + version@ + "]"@,
    }
}

impl SetAction {
    /// The user action the server is told.
    pub fn get_action(&self) -> (a: UserAction)
        ensures
            a == spec_user_action(*self),
    {
        match self {
            SetAction::Idle => UserAction::Idle,
            SetAction::Closing => UserAction::Leaving,
            SetAction::Playing { .. } => UserAction::Ingame,
            SetAction::Listening { .. } => UserAction::Idle,
            SetAction::Spectating { .. } => UserAction::Ingame,
        }
    }

    /// The status text the server is told.
    pub fn action_text(&self) -> (s: String)
        ensures
            s@ == spec_action_text(*self),
    {
        match self {
            SetAction::Idle => String::from_str("Idle"),
            SetAction::Closing => String::from_str("Closing"),
            SetAction::Listening { artist, title, .. } => {
                let mut s = String::from_str("Listening to ");
                s.append(artist.as_str());
                s.append(" - ");
                s.append(title.as_str());
                s
            },
            SetAction::Spectating { player, artist, title, version, .. } => {
                let mut s = String::from_str("Watching ");
                s.append(player.as_str());
                s.append(" play ");
                s.append(artist.as_str());
                s.append(" - ");
                s.append(title.as_str());
                s.append("[");
                s.append(version.as_str());
                s.append("]");
                s
            },
            SetAction::Playing { artist, title, version, .. } => {
                let mut s = String::from_str("Playing ");
                s.append(artist.as_str());
                s.append(" - ");
                s.append(title.as_str());
                s.append("[");
                s.append(version.as_str());
                s.append("]");
                s
            },
        }
    }
}

/// How long ago `last_ms` was, at `now_ms` (0 if the clock went back).
pub open spec fn since(now_ms: u64, last_ms: u64) -> nat {
    if now_ms >= last_ms { (now_ms - last_ms) as nat } else { 0 }
}

/// The views of some client packets.
pub open spec fn packet_views<F>(s: Seq<ClientPacket<F>>) -> Seq<PacketView<F>> {
    s.map_values(|p: ClientPacket<F>| p@)
}

/// Whether a user has a slot among the given players.
pub open spec fn has_player(players: Seq<crate::multiplayer::LobbyUser>, user_id: u32) -> bool {
    exists|i: int| 0 <= i < players.len() && #[trigger] players[i].user_id == user_id
}

/// The user names of the players in a lobby that are online, by user id.
pub open spec fn online_player_names(
    players: Seq<crate::multiplayer::LobbyUser>,
    users: Map<u32, OnlineUserView>,
) -> Map<u32, Seq<char>> {
    Map::new(
        |k: u32| users.contains_key(k) && has_player(players, k),
        |k: u32| users[k].username,
    )
}

impl OnlineUser {
    /// A copy of this user.
    pub fn duplicate(&self) -> (u: OnlineUser)
        ensures
            u@ == self@,
    {
        OnlineUser {
            user_id: self.user_id,
            username: self.username.clone(),
            game: self.game.clone(),
            friend: self.friend,
            action: self.action,
            action_text: crate::multiplayer::copy_opt_string(&self.action_text),
            mode: crate::multiplayer::copy_opt_string(&self.mode),
        }
    }
}

impl<F> OnlineManager<F> {
    /// The connection opened: remember it, and log in with the given credentials.
    pub fn connected(&mut self, username: String, password: String) -> (p: ClientPacket<F>)
        ensures
            final(self)@ == (OnlineView { connected: true, ..old(self)@ }),
            p@ == (PacketView::<F>::UserLogin {
                protocol_version: 1,
                game: "Tataku\n0.1.0"@,
                username: username@,
                password: password@,
            }),
    {
        self.connected = true;
        ClientPacket::UserLogin { protocol_version: 1, game: String::from_str("Tataku\n0.1.0"), username, password }
    }

    /// The connection dropped: we are neither connected nor logged in; everything else stays.
    pub fn disconnect(&mut self) -> (e: OnlineEvent)
        ensures
            final(self)@ == (OnlineView { connected: false, logged_in: false, ..old(self)@ }),
            e@ == EventView::Disconnected,
    {
        self.connected = false;
        self.logged_in = false;
        OnlineEvent::Disconnected
    }

    /// The server closed the connection: say so, and disconnect.
    pub fn connection_closed(&mut self) -> (out: Vec<OnlineOutput<F>>)
        ensures
            final(self)@ == (OnlineView { connected: false, logged_in: false, ..old(self)@ }),
            outputs_view(out@) == seq![
                notice::<F>("Disconnected from server"@, NotificationColor::Red, 5000),
                OutputView::<F>::Event(EventView::Disconnected),
            ],
    {
        let mut out: Vec<OnlineOutput<F>> = Vec::new();
        push_notice(&mut out, String::from_str("Disconnected from server"), NotificationColor::Red, 5000);
        let e = self.disconnect();
        push_output(&mut out, OnlineOutput::Event(e));
        assert(outputs_view(out@) =~= seq![
            notice::<F>("Disconnected from server"@, NotificationColor::Red, 5000),
            OutputView::<F>::Event(EventView::Disconnected),
        ]);
        out
    }

    /// Disconnects and forgets everything about the session but the chat.
    pub fn reset(&mut self) -> (e: OnlineEvent)
        ensures
            final(self)@ == (OnlineView {
                connected: false,
                logged_in: false,
                user_id: 0,
                users: Map::empty(),
                friends: Set::empty(),
                spec_host: 0,
                incoming: Map::empty(),
                outgoing: Seq::empty(),
                last_sent_ms: 0,
                spectators: Seq::empty(),
                queue: Seq::empty(),
                ..old(self)@
            }),
            e@ == EventView::Disconnected,
    {
        self.user_id = 0;
        self.connected = false;
        self.logged_in = false;
        self.users.clear();
        self.friends.clear();
        self.spectator_info = SpectatorInfo::new(0, 0);
        self.multiplayer_packet_queue.clear();
        assert(self@ =~= OnlineView {
            connected: false,
            logged_in: false,
            user_id: 0,
            users: Map::empty(),
            friends: Set::empty(),
            spec_host: 0,
            incoming: Map::empty(),
            outgoing: Seq::empty(),
            last_sent_ms: 0,
            spectators: Seq::empty(),
            queue: Seq::empty(),
            ..old(self)@
        });
        OnlineEvent::Disconnected
    }

    /// The packets that tell the server what we are doing: a status update (with the
    /// mode, or an empty mode), followed by a log-out when we are leaving.
    pub fn set_action(&self, action: &SetAction, mode: Option<String>) -> (packets: Vec<ClientPacket<F>>)
        ensures
            packet_views(packets@) == seq![
                PacketView::<F>::StatusUpdate {
                    action: spec_user_action(*action),
                    action_text: spec_action_text(*action),
                    mode: match mode {
                        Some(m) => m@,
                        None => Seq::empty(),
                    },
                },
            ] + (if spec_user_action(*action) == UserAction::Leaving {
                seq![PacketView::<F>::LogOut]
            } else {
                Seq::empty()
            }),
    {
        let ghost given = mode;
        let mode_text = match mode {
            Some(m) => m,
            None => String::new(),
        };
        let user_action = action.get_action();
        let mut packets: Vec<ClientPacket<F>> = Vec::new();
        packets.push(ClientPacket::StatusUpdate { action: user_action, action_text: action.action_text(), mode: mode_text });
        if user_action == UserAction::Leaving {
            packets.push(ClientPacket::LogOut);
        }
        assert(packet_views(packets@) =~= seq![
            PacketView::<F>::StatusUpdate {
                action: spec_user_action(*action),
                action_text: spec_action_text(*action),
                mode: match given {
                    Some(m) => m@,
                    None => Seq::empty(),
                },
            },
        ] + (if spec_user_action(*action) == UserAction::Leaving {
            seq![PacketView::<F>::LogOut]
        } else {
            Seq::empty()
        }));
        packets
    }

    /// Queues our own spectator frames, and sends all queued frames (with our user id as
    /// the host) when asked to, when a second has passed since the last send, or once
    /// enough frames are waiting.
    pub fn send_spec_frames(&mut self, frames: Vec<F>, force_send: bool, now_ms: u64) -> (p: Option<ClientPacket<F>>)
        ensures
            ({
                let all = old(self)@.outgoing + frames@;
                if force_send || since(now_ms, old(self)@.last_sent_ms) > SPECTATOR_FLUSH_MS
                    || all.len() >= SPECTATOR_BUFFER_FLUSH_SIZE {
                    &&& final(self)@ == (OnlineView { outgoing: Seq::empty(), last_sent_ms: now_ms, ..old(self)@ })
                    &&& p matches Some(p) && p@ == (PacketView::SpectatorFrames { host_id: old(self)@.user_id, frames: all })
                } else {
                    &&& final(self)@ == (OnlineView { outgoing: all, ..old(self)@ })
                    &&& p is None
                }
            }),
    {
        let ghost given = frames@;
        let mut frames = frames;
        self.spectator_info.outgoing_frames.append(&mut frames);
        let last = self.spectator_info.last_sent_ms;
        let times_up = now_ms >= last && now_ms - last > SPECTATOR_FLUSH_MS;
        if force_send || times_up || self.spectator_info.outgoing_frames.len() >= SPECTATOR_BUFFER_FLUSH_SIZE {
            let mut out_frames: Vec<F> = Vec::new();
            std::mem::swap(&mut out_frames, &mut self.spectator_info.outgoing_frames);
            self.spectator_info.last_sent_ms = now_ms;
            assert(self@ =~= OnlineView { outgoing: Seq::empty(), last_sent_ms: now_ms, ..old(self)@ });
            Some(ClientPacket::SpectatorFrames { host_id: self.user_id, frames: out_frames })
        } else {
            assert(self@ =~= OnlineView { outgoing: old(self)@.outgoing + given, ..old(self)@ });
            None
        }
    }

    /// Asks the server to let us spectate a host; spectating starts once it agrees.
    pub fn start_spectating(&self, host_id: u32) -> (p: ClientPacket<F>)
        ensures
            p@ == (PacketView::<F>::Spectate { host_id }),
    {
        ClientPacket::Spectate { host_id }
    }

    /// Stops spectating a host: its frames are dropped and the server is told.
    pub fn stop_spectating(&mut self, host_id: u32) -> (p: ClientPacket<F>)
        ensures
            final(self)@ == (OnlineView { incoming: old(self)@.incoming.remove(host_id), ..old(self)@ }),
            p@ == (PacketView::<F>::LeaveSpectator { host_id }),
    {
        self.remove_host(host_id);
        ClientPacket::LeaveSpectator { host_id }
    }

    /// Takes the frames received so far for a host we spectate (none for any other host).
    pub fn get_pending_spec_frames(&mut self, host_id: u32) -> (frames: Vec<F>)
        ensures
            old(self)@.incoming.contains_key(host_id) ==> {
                &&& frames@ == old(self)@.incoming[host_id]
                &&& final(self)@ == (OnlineView { incoming: old(self)@.incoming.insert(host_id, Seq::empty()), ..old(self)@ })
            },
            !old(self)@.incoming.contains_key(host_id) ==> {
                &&& frames@ == Seq::<F>::empty()
                &&& final(self)@ == old(self)@
            },
    {
        match self.take_frames(host_id) {
            Some(v) => {
                self.put_frames(host_id, Vec::new());
                v
            },
            None => {
                assert(self@.incoming =~= old(self)@.incoming);
                assert(self@ =~= old(self)@);
                Vec::new()
            },
        }
    }

    /// A copy of the online user with the given id, if any.
    pub fn get_user(&self, user_id: u32) -> (u: Option<OnlineUser>)
        ensures
            match u {
                Some(u) => self@.users.contains_key(user_id) && u@ == self@.users[user_id],
                None => !self@.users.contains_key(user_id),
            },
    {
        match self.users.get(&user_id) {
            Some(u) => Some(u.duplicate()),
            None => None,
        }
    }

    /// Refills a lobby's cache of player usernames from the users that are online.
    pub fn update_usernames(&self, data: &mut CurrentLobbyInfo)
        ensures
            final(data).player_usernames@.map_values(|s: String| s@)
                == online_player_names(old(data).info.players@, self@.users),
            final(data).our_user_id == old(data).our_user_id,
            final(data).info == old(data).info,
            final(data).play_pending == old(data).play_pending,
            final(data).should_play == old(data).should_play,
            final(data).player_scores == old(data).player_scores,
    {
        data.player_usernames.clear();
        let ghost players = data.info.players@;
        let ghost users = self@.users;
        let n = data.info.players.len();
        assert(data.player_usernames@.map_values(|s: String| s@) =~= online_player_names(players.take(0), users));
        for i in 0..n
            invariant
                n == players.len(),
                players == data.info.players@,
                users == self@.users,
                data.player_usernames@.map_values(|s: String| s@) == online_player_names(players.take(i as int), users),
                data.our_user_id == old(data).our_user_id,
                data.info == old(data).info,
                data.play_pending == old(data).play_pending,
                data.should_play == old(data).should_play,
                data.player_scores == old(data).player_scores,
        {
            let id = data.info.players[i].user_id;
            let ghost before = data.player_usernames@;
            assert(players.take(i + 1)[i as int] == players[i as int]);
            proof {
                assert forall|k: u32| #[trigger] has_player(players.take(i + 1), k)
                    <==> (has_player(players.take(i as int), k) || k == id) by {
                    if has_player(players.take(i + 1), k) {
                        let j = choose|j: int| 0 <= j < i + 1 && #[trigger] players.take(i + 1)[j].user_id == k;
                        if j < i {
                            assert(players.take(i as int)[j].user_id == k);
                        }
                    }
                    if has_player(players.take(i as int), k) {
                        let j = choose|j: int| 0 <= j < i && #[trigger] players.take(i as int)[j].user_id == k;
                        assert(players.take(i + 1)[j].user_id == k);
                    }
                    if k == id {
                        assert(players.take(i + 1)[i as int].user_id == k);
                    }
                }
            }
            match self.users.get(&id) {
                Some(u) => {
                    assert(has_player(players.take(i + 1), id));
                    assert(users[id] == u@);
                    let name = u.username.clone();
                    data.player_usernames.insert(id, name);
                    assert(data.player_usernames@ == before.insert(id, name));
                    assert(data.player_usernames@.map_values(|s: String| s@)
                        =~= before.map_values(|s: String| s@).insert(id, name@));
                    assert(online_player_names(players.take(i + 1), users)
                        =~= online_player_names(players.take(i as int), users).insert(id, users[id].username));
                    assert(data.player_usernames@.map_values(|s: String| s@)
                        =~= online_player_names(players.take(i + 1), users));
                },
                None => {
                    assert(!users.contains_key(id));
                    assert(data.player_usernames@.map_values(|s: String| s@)
                        =~= online_player_names(players.take(i + 1), users));
                },
            }
        }
        assert(players.take(n as int) =~= players);
    }
}

/// A filter that keeps every item keeps the sequence.
proof fn lemma_filter_keeps_all(items: Seq<SpectatorView>, keep: spec_fn(SpectatorView) -> bool)
    requires
        forall|i: int| 0 <= i < items.len() ==> keep(#[trigger] items[i]),
    ensures
        items.filter(keep) == items,
    decreases items.len(),
{
    reveal(Seq::filter);
    if items.len() > 0 {
        lemma_filter_keeps_all(items.drop_last(), keep);
        assert(keep(items[items.len() - 1]));
        assert(items.drop_last().push(items.last()) =~= items);
    }
}

/// A spectator joining a host is added last, and every other spectator entry (another
/// user, or the same user watching another host) stays; nothing else comes in, and no
/// older entry of that user watching that host remains. When that user was not yet
/// watching that host, the list is the old one, in its order, with the new entry after it.
pub proof fn law_spectator_joins<F>(s: OnlineView<F>, host_id: u32, user_id: u32, username: String, now_ms: u64)
    ensures
        ({
            let t = after_packet(
                s,
                ServerPacket::Spectator { host_id, packet: SpectatorPacket::SpectatorJoined { user_id, username } },
                now_ms,
            ).spectators;
            let joined = SpectatorView { host_id, user_id, username: username@ };
            &&& t.len() > 0
            &&& t.last() == joined
            &&& forall|i: int|
                0 <= i < s.spectators.len() && !(s.spectators[i].host_id == host_id && s.spectators[i].user_id == user_id)
                    ==> t.drop_last().contains(#[trigger] s.spectators[i])
            &&& forall|x: SpectatorView|
                #[trigger] t.drop_last().contains(x) ==> s.spectators.contains(x) && !(x.host_id == host_id && x.user_id == user_id)
            &&& (forall|i: int| 0 <= i < s.spectators.len()
                ==> !(#[trigger] s.spectators[i].host_id == host_id && s.spectators[i].user_id == user_id))
                ==> t == s.spectators.push(joined)
            &&& t.drop_last() == s.spectators.filter(|x: SpectatorView| x.host_id != host_id || x.user_id != user_id)
        }),
{
    let keep = not_spectator(host_id, user_id);
    let t = after_packet(
        s,
        ServerPacket::Spectator { host_id, packet: SpectatorPacket::SpectatorJoined { user_id, username } },
        now_ms,
    ).spectators;
    let joined = SpectatorView { host_id, user_id, username: username@ };
    let kept = s.spectators.filter(keep);
    assert(t == kept.push(joined));
    assert(keep =~= (|x: SpectatorView| x.host_id != host_id || x.user_id != user_id));
    assert(t.drop_last() =~= kept);
    assert forall|i: int|
        0 <= i < s.spectators.len() && !(s.spectators[i].host_id == host_id && s.spectators[i].user_id == user_id)
        implies t.drop_last().contains(#[trigger] s.spectators[i]) by {
        assert(keep(s.spectators[i]));
        s.spectators.lemma_filter_contains(keep, i);
    }
    assert forall|x: SpectatorView| #[trigger] t.drop_last().contains(x)
        implies s.spectators.contains(x) && !(x.host_id == host_id && x.user_id == user_id) by {
        s.spectators.lemma_filter_contains_rev(keep, x);
        let j = choose|j: int| 0 <= j < kept.len() && kept[j] == x;
        s.spectators.lemma_filter_pred(keep, j);
    }
    if forall|i: int| 0 <= i < s.spectators.len()
        ==> !(#[trigger] s.spectators[i].host_id == host_id && s.spectators[i].user_id == user_id) {
        assert forall|i: int| 0 <= i < s.spectators.len() implies keep(#[trigger] s.spectators[i]) by {
            assert(!(s.spectators[i].host_id == host_id && s.spectators[i].user_id == user_id));
        }
        lemma_filter_keeps_all(s.spectators, keep);
    }
}

/// Whether a batch holds no unknown packet.
pub open spec fn all_known<F>(ps: Seq<ServerPacket<F>>) -> bool {
    forall|i: int| 0 <= i < ps.len() ==> !(#[trigger] ps[i] is Unknown)
}

/// Handling a batch of known packets and then another batch is the same as handling
/// both at once: the same state, and the same outputs in the same order.
pub proof fn law_batch_in_parts<F>(s: OnlineView<F>, ps: Seq<ServerPacket<F>>, qs: Seq<ServerPacket<F>>, now_ms: u64)
    requires
        all_known(ps),
    ensures
        after_packets(s, ps + qs, now_ms) == after_packets(after_packets(s, ps, now_ms), qs, now_ms),
        batch_outputs(s, ps + qs, now_ms) == batch_outputs(s, ps, now_ms) + batch_outputs(
            after_packets(s, ps, now_ms),
            qs,
            now_ms,
        ),
    decreases ps.len(),
{
    if ps.len() == 0 {
        assert(ps + qs =~= qs);
        assert(Seq::<OutputView<F>>::empty() + batch_outputs(s, qs, now_ms) =~= batch_outputs(s, qs, now_ms));
    } else {
        let rest = ps.drop_first();
        let s1 = after_packet(s, ps[0], now_ms);
        assert(all_known(rest)) by {
            assert forall|i: int| 0 <= i < rest.len() implies !(#[trigger] rest[i] is Unknown) by {
                assert(rest[i] == ps[i + 1]);
            }
        }
        assert(!(ps[0] is Unknown));
        law_batch_in_parts(s1, rest, qs, now_ms);
        assert((ps + qs).drop_first() =~= rest + qs);
        assert((ps + qs)[0] == ps[0]);
        let a = packet_outputs(s, ps[0]);
        let b = batch_outputs(s1, rest, now_ms);
        let c = batch_outputs(after_packets(s1, rest, now_ms), qs, now_ms);
        assert(a + (b + c) =~= (a + b) + c);
    }
}

/// An unknown packet drops itself and everything after it: a batch of known packets
/// followed by an unknown one and anything else leaves the state and outputs of the known
/// packets alone.
pub proof fn law_unknown_drops_rest<F>(
    s: OnlineView<F>,
    ps: Seq<ServerPacket<F>>,
    qs: Seq<ServerPacket<F>>,
    now_ms: u64,
)
    requires
        all_known(ps),
    ensures
        after_packets(s, ps + seq![ServerPacket::Unknown] + qs, now_ms) == after_packets(s, ps, now_ms),
        batch_outputs(s, ps + seq![ServerPacket::Unknown] + qs, now_ms) == batch_outputs(s, ps, now_ms),
{
    let tail = seq![ServerPacket::<F>::Unknown] + qs;
    assert(ps + seq![ServerPacket::Unknown] + qs =~= ps + tail);
    law_batch_in_parts(s, ps, tail, now_ms);
    assert(tail[0] is Unknown);
    assert(batch_outputs(s, ps, now_ms) + Seq::<OutputView<F>>::empty() =~= batch_outputs(s, ps, now_ms));
}

/// The number of messages in a chat.
pub open spec fn message_count(chat: Seq<ChatLogView>) -> nat
    decreases chat.len(),
{
    if chat.len() == 0 {
        0
    } else {
        message_count(chat.drop_last()) + chat.last().messages.len()
    }
}

/// Whether no two logs of a chat are for the same channel.
pub open spec fn distinct_channels(chat: Seq<ChatLogView>) -> bool {
    forall|i: int, j: int| 0 <= i < j < chat.len() ==> chat[i].channel != chat[j].channel
}

/// Updating one log changes the message count by the change in that log.
proof fn lemma_message_count_update(chat: Seq<ChatLogView>, i: int, log: ChatLogView)
    requires
        0 <= i < chat.len(),
    ensures
        message_count(chat.update(i, log)) + chat[i].messages.len() == message_count(chat) + log.messages.len(),
    decreases chat.len(),
{
    if i == chat.len() - 1 {
        assert(chat.update(i, log).drop_last() =~= chat.drop_last());
    } else {
        lemma_message_count_update(chat.drop_last(), i, log);
        assert(chat.update(i, log).drop_last() =~= chat.drop_last().update(i, log));
    }
}

/// A chat message lands in exactly one log: the chat gains one message, and a chat whose
/// logs are for distinct channels keeps them distinct.
pub proof fn law_message_added_once(chat: Seq<ChatLogView>, m: MessageView)
    ensures
        message_count(with_message(chat, m)) == message_count(chat) + 1,
        distinct_channels(chat) ==> distinct_channels(with_message(chat, m)),
{
    if exists|i: int| is_first_log(chat, m.channel, i) {
        let i = choose|i: int| is_first_log(chat, m.channel, i);
        let log = ChatLogView { channel: chat[i].channel, messages: chat[i].messages.push(m) };
        lemma_message_count_update(chat, i, log);
    } else {
        let log = ChatLogView { channel: m.channel, messages: seq![m] };
        assert(chat.push(log).drop_last() =~= chat);
        if distinct_channels(chat) {
            let after = chat.push(log);
            assert forall|a: int, b: int| 0 <= a < b < after.len() implies after[a].channel != after[b].channel by {
                if b == chat.len() {
                    if after[a].channel == m.channel {
                        assert forall|j: int| 0 <= j < a implies #[trigger] chat[j].channel != m.channel by {
                            assert(chat[j].channel != chat[a].channel);
                        }
                        assert(is_first_log(chat, m.channel, a));
                    }
                }
            }
        }
    }
}

} // verus!
