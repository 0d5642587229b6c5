use tataku::chat::ChatChannel;
use tataku::multiplayer::{LobbyInfo, LobbyState, MultiplayerPacket};
use tataku::notifications::NotificationColor;
use tataku::online::{
    ChatPacket, ClientPacket, LoginStatus, OnlineEvent, OnlineManager, OnlineOutput, ServerPacket,
    SetAction, Severity, SpectateResult, SpectatorPacket, UserAction,
};

type Manager = OnlineManager<u8>;

fn notice_texts(out: &[OnlineOutput<u8>]) -> Vec<(String, NotificationColor, u64)> {
    out.iter()
        .filter_map(|o| match o {
            OnlineOutput::Notify(n) => Some((n.text.clone(), n.color, n.duration_ms)),
            _ => None,
        })
        .collect()
}

fn lobby(id: u32) -> LobbyInfo {
    LobbyInfo {
        id,
        name: "room".to_string(),
        host: 1,
        players: vec![1],
        has_password: false,
        current_beatmap: None,
        state: LobbyState::Idle,
    }
}

#[test]
fn new_manager_has_general_channel() {
    let m = Manager::new();
    assert!(!m.connected && !m.logged_in && m.user_id == 0);
    assert_eq!(m.chat_messages.len(), 1);
    assert_eq!(m.chat_messages[0].channel, ChatChannel::Channel { name: "general".to_string() });
    assert_eq!(m.chat_messages[0].messages[0].sender, "System");
    assert_eq!(m.chat_messages[0].messages[0].sender_id, u32::MAX);
}

#[test]
fn ping_is_answered_with_pong() {
    let mut m = Manager::new();
    let mut out = Vec::new();
    assert!(m.handle_packet(ServerPacket::Ping, 0, &mut out));
    assert_eq!(out.len(), 1);
    assert!(matches!(out[0], OnlineOutput::Send(ClientPacket::Pong)));
}

#[test]
fn login_success_logs_in_and_asks_for_friends() {
    let mut m = Manager::new();
    let mut out = Vec::new();
    m.handle_packet(ServerPacket::LoginResponse { status: LoginStatus::Success, user_id: 42 }, 1000, &mut out);
    assert!(m.logged_in);
    assert_eq!(m.user_id, 42);
    assert_eq!(m.spectator_info.host_id, 42);
    assert_eq!(m.spectator_info.last_sent_ms, 1000);
    assert_eq!(out.len(), 4);
    assert_eq!(notice_texts(&out), vec![("[Login] Logged in!".to_string(), NotificationColor::Green, 2000)]);
    assert!(matches!(&out[1], OnlineOutput::Event(OnlineEvent::LoggedIn { user_id: 42, username }) if username.is_empty()));
    assert!(matches!(out[2], OnlineOutput::StartPing));
    assert!(matches!(out[3], OnlineOutput::Send(ClientPacket::GetFriends)));
}

#[test]
fn login_failures_are_notified() {
    let cases = [
        (LoginStatus::UnknownError, "[Login] Unknown error logging in", NotificationColor::Red),
        (LoginStatus::BadPassword, "[Login] Authentication failed", NotificationColor::Red),
        (LoginStatus::NoUser, "[Login] Authentication failed", NotificationColor::Red),
        (LoginStatus::NotActivated, "[Login] Your account is pending activation", NotificationColor::Yellow),
    ];
    for (status, text, color) in cases {
        let mut m = Manager::new();
        let mut out = Vec::new();
        m.handle_packet(ServerPacket::LoginResponse { status, user_id: 5 }, 0, &mut out);
        assert!(!m.logged_in);
        assert_eq!(m.user_id, 0);
        assert_eq!(notice_texts(&out), vec![(text.to_string(), color, 5000)]);
    }
}

#[test]
fn server_notifications_by_severity() {
    for (sev, color, ms) in [
        (Severity::Info, NotificationColor::Green, 3000),
        (Severity::Warning, NotificationColor::Yellow, 5000),
        (Severity::Error, NotificationColor::Red, 7000),
    ] {
        let mut m = Manager::new();
        let mut out = Vec::new();
        m.handle_packet(ServerPacket::Notification { message: "hey".to_string(), severity: sev }, 0, &mut out);
        assert_eq!(notice_texts(&out), vec![("hey".to_string(), color, ms)]);
    }
}

#[test]
fn friends_come_online_and_go_offline() {
    let mut m = Manager::new();
    let mut out = Vec::new();
    m.handle_packet(ServerPacket::Chat { packet: ChatPacket::FriendsList { friend_ids: vec![7] } }, 0, &mut out);
    m.handle_packet(
        ServerPacket::UserJoined { user_id: 7, username: "ann".to_string(), game: "Tataku".to_string() },
        0,
        &mut out,
    );
    m.handle_packet(
        ServerPacket::UserJoined { user_id: 8, username: "bob".to_string(), game: "osu".to_string() },
        0,
        &mut out,
    );
    assert_eq!(notice_texts(&out), vec![("ann is online".to_string(), NotificationColor::Blue, 5000)]);
    assert!(m.users.contains_key(&7) && m.users.contains_key(&8));
    assert!(!m.users[&7].friend);
    let mut out = Vec::new();
    m.handle_packet(ServerPacket::UserLeft { user_id: 7 }, 0, &mut out);
    m.handle_packet(ServerPacket::UserLeft { user_id: 8 }, 0, &mut out);
    m.handle_packet(ServerPacket::UserLeft { user_id: 9 }, 0, &mut out);
    assert_eq!(notice_texts(&out), vec![("ann is offline".to_string(), NotificationColor::Blue, 5000)]);
    assert!(m.users.is_empty());
}

#[test]
fn friends_list_marks_online_users() {
    let mut m = Manager::new();
    let mut out = Vec::new();
    m.handle_packet(ServerPacket::UserJoined { user_id: 3, username: "c".to_string(), game: "g".to_string() }, 0, &mut out);
    m.handle_packet(ServerPacket::UserJoined { user_id: 4, username: "d".to_string(), game: "g".to_string() }, 0, &mut out);
    m.handle_packet(ServerPacket::Chat { packet: ChatPacket::FriendsList { friend_ids: vec![3, 10] } }, 0, &mut out);
    assert!(m.users[&3].friend);
    assert!(!m.users[&4].friend);
    assert!(m.friends.contains(&3) && m.friends.contains(&10) && !m.friends.contains(&4));
    m.handle_packet(ServerPacket::Chat { packet: ChatPacket::UpdateFriend { friend_id: 3, is_friend: false } }, 0, &mut out);
    assert!(!m.users[&3].friend);
    assert!(!m.friends.contains(&3));
    m.handle_packet(ServerPacket::Chat { packet: ChatPacket::UpdateFriend { friend_id: 4, is_friend: true } }, 0, &mut out);
    assert!(m.users[&4].friend && m.friends.contains(&4));
}

#[test]
fn status_update_changes_only_known_users() {
    let mut m = Manager::new();
    let mut out = Vec::new();
    m.handle_packet(ServerPacket::UserJoined { user_id: 3, username: "c".to_string(), game: "g".to_string() }, 0, &mut out);
    m.handle_packet(
        ServerPacket::UserStatusUpdate { user_id: 3, action: UserAction::Ingame, action_text: "x".to_string(), mode: "taiko".to_string() },
        0,
        &mut out,
    );
    m.handle_packet(
        ServerPacket::UserStatusUpdate { user_id: 99, action: UserAction::Idle, action_text: "y".to_string(), mode: "m".to_string() },
        0,
        &mut out,
    );
    let u = &m.users[&3];
    assert_eq!(u.action, Some(UserAction::Ingame));
    assert_eq!(u.action_text.as_deref(), Some("x"));
    assert_eq!(u.mode.as_deref(), Some("taiko"));
    assert!(!m.users.contains_key(&99));
}

#[test]
fn chat_messages_go_to_their_channels() {
    let mut m = Manager::new();
    let mut out = Vec::new();
    m.handle_packet(ServerPacket::UserJoined { user_id: 3, username: "cat".to_string(), game: "g".to_string() }, 0, &mut out);
    let msg = |ch: &str, sender: u32| ServerPacket::Chat {
        packet: ChatPacket::SendMessage { sender_id: sender, message: "hello".to_string(), channel: ch.to_string() },
    };
    m.handle_packet(msg("##general", 3), 100, &mut out);
    m.handle_packet(msg("dog", 4), 200, &mut out);
    assert_eq!(m.chat_messages.len(), 2);
    assert_eq!(m.chat_messages[0].messages.len(), 2);
    let added = &m.chat_messages[0].messages[1];
    assert_eq!(added.sender, "cat");
    assert_eq!(added.timestamp, 100);
    assert_eq!(added.channel, ChatChannel::Channel { name: "general".to_string() });
    assert_eq!(m.chat_messages[1].channel, ChatChannel::User { username: "dog".to_string() });
    assert_eq!(m.chat_messages[1].messages[0].sender, "");
}

#[test]
fn spectating_flow() {
    let mut m = Manager::new();
    let mut out = Vec::new();
    m.handle_packet(
        ServerPacket::Spectator { host_id: 5, packet: SpectatorPacket::SpectatorFrames { frames: vec![1, 2] } },
        0,
        &mut out,
    );
    assert!(m.get_pending_spec_frames(5).is_empty());
    m.handle_packet(
        ServerPacket::Spectator { host_id: 5, packet: SpectatorPacket::SpectateResult { result: SpectateResult::Accepted } },
        0,
        &mut out,
    );
    m.handle_packet(
        ServerPacket::Spectator { host_id: 5, packet: SpectatorPacket::SpectatorFrames { frames: vec![1, 2] } },
        0,
        &mut out,
    );
    m.handle_packet(
        ServerPacket::Spectator { host_id: 5, packet: SpectatorPacket::SpectatorFrames { frames: vec![3] } },
        0,
        &mut out,
    );
    assert!(out.is_empty());
    assert_eq!(m.get_pending_spec_frames(5), vec![1, 2, 3]);
    assert!(m.get_pending_spec_frames(5).is_empty());
    let p = m.stop_spectating(5);
    assert!(matches!(p, ClientPacket::LeaveSpectator { host_id: 5 }));
    assert!(!m.spectator_info.incoming_frames.contains_key(&5));
}

#[test]
fn spectate_refusals_are_notified() {
    for (r, text) in [
        (SpectateResult::SpectatingBot, "You cannot spectate a bot!"),
        (SpectateResult::HostOffline, "Spectate host is offline!"),
        (SpectateResult::SpectatingYourself, "You cannot spectate yourself!"),
        (SpectateResult::Unknown, "Unknown error trying to spectate!"),
    ] {
        let mut m = Manager::new();
        let mut out = Vec::new();
        m.handle_packet(ServerPacket::Spectator { host_id: 1, packet: SpectatorPacket::SpectateResult { result: r } }, 0, &mut out);
        assert_eq!(notice_texts(&out), vec![(text.to_string(), NotificationColor::Red, 3000)]);
        assert!(m.spectator_info.incoming_frames.is_empty());
    }
}

#[test]
fn spectators_join_and_leave() {
    let mut m = Manager::new();
    let mut out = Vec::new();
    m.handle_packet(
        ServerPacket::Spectator { host_id: 1, packet: SpectatorPacket::SpectatorJoined { user_id: 9, username: "eve".to_string() } },
        0,
        &mut out,
    );
    assert_eq!(m.spectator_info.spectators.len(), 1);
    m.handle_packet(ServerPacket::Spectator { host_id: 1, packet: SpectatorPacket::SpectatorLeft { user_id: 9 } }, 0, &mut out);
    assert!(m.spectator_info.spectators.is_empty());
    assert_eq!(
        notice_texts(&out),
        vec![
            ("eve is now spectating".to_string(), NotificationColor::Green, 2000),
            ("A user stopped spectating".to_string(), NotificationColor::Green, 2000),
        ]
    );
    assert!(matches!(&out[1], OnlineOutput::Event(OnlineEvent::SpectatorJoined { user_id: 9, .. })));
    assert!(matches!(&out[3], OnlineOutput::Event(OnlineEvent::SpectatorLeft { user_id: 9 })));
}

#[test]
fn unknown_packet_drops_the_rest_of_the_batch() {
    let mut m = Manager::new();
    let out = m.handle_packets(
        vec![
            ServerPacket::Ping,
            ServerPacket::Unknown,
            ServerPacket::Ping,
            ServerPacket::Multiplayer { packet: MultiplayerPacket::LobbyDeleted { lobby_id: 1 } },
        ],
        0,
    );
    assert_eq!(out.len(), 1);
    assert!(m.multiplayer_packet_queue.is_empty());
}

#[test]
fn batch_in_parts_matches_batch_at_once() {
    let batch = || {
        vec![
            ServerPacket::LoginResponse { status: LoginStatus::Success, user_id: 2 },
            ServerPacket::UserJoined { user_id: 3, username: "c".to_string(), game: "g".to_string() },
            ServerPacket::Ping,
        ]
    };
    let mut a = Manager::new();
    let all = a.handle_packets(batch(), 5);
    let mut b = Manager::new();
    let mut parts = batch();
    let second = parts.split_off(1);
    let mut out = b.handle_packets(parts, 5);
    out.extend(b.handle_packets(second, 5));
    assert_eq!(all.len(), out.len());
    assert_eq!(a.user_id, b.user_id);
    assert_eq!(a.users.len(), b.users.len());
}

#[test]
fn lobby_invites_and_multiplayer_packets() {
    let mut m = Manager::new();
    let mut out = Vec::new();
    m.handle_packet(ServerPacket::LobbyInvite { inviter_id: 4, lobby: lobby(8) }, 0, &mut out);
    m.handle_packet(ServerPacket::Multiplayer { packet: MultiplayerPacket::LobbyDeleted { lobby_id: 8 } }, 0, &mut out);
    assert!(matches!(&out[0], OnlineOutput::Event(OnlineEvent::LobbyInvite { inviter_id: 4, inviter_username, lobby }) if inviter_username == "A user" && lobby.id == 8));
    assert_eq!(m.multiplayer_packet_queue.len(), 1);
}

#[test]
fn set_action_texts() {
    let m = Manager::new();
    let p = m.set_action(
        &SetAction::Playing {
            artist: "A".to_string(),
            title: "T".to_string(),
            version: "V".to_string(),
            creator: "C".to_string(),
            multiplayer_lobby_name: None,
            start_time: 0,
        },
        Some("osu".to_string()),
    );
    assert_eq!(p.len(), 1);
    assert!(matches!(&p[0], ClientPacket::StatusUpdate { action: UserAction::Ingame, action_text, mode } if action_text == "Playing A - T[V]" && mode == "osu"));
    let p = m.set_action(&SetAction::Closing, None);
    assert_eq!(p.len(), 2);
    assert!(matches!(&p[0], ClientPacket::StatusUpdate { action: UserAction::Leaving, action_text, mode } if action_text == "Closing" && mode.is_empty()));
    assert!(matches!(p[1], ClientPacket::LogOut));
    let p = m.set_action(
        &SetAction::Spectating {
            player: "P".to_string(),
            artist: "A".to_string(),
            title: "T".to_string(),
            creator: "C".to_string(),
            version: "V".to_string(),
        },
        None,
    );
    assert!(matches!(&p[0], ClientPacket::StatusUpdate { action_text, .. } if action_text == "Watching P play A - T[V]"));
    let p = m.set_action(&SetAction::Listening { artist: "A".to_string(), title: "T".to_string(), elapsed_ms: 0, duration_ms: 0 }, None);
    assert!(matches!(&p[0], ClientPacket::StatusUpdate { action: UserAction::Idle, action_text, .. } if action_text == "Listening to A - T"));
}

#[test]
fn spectator_frames_are_sent_in_batches() {
    let mut m = Manager::new();
    let mut out = Vec::new();
    m.handle_packet(ServerPacket::LoginResponse { status: LoginStatus::Success, user_id: 6 }, 1000, &mut out);
    assert!(m.send_spec_frames(vec![1; 19], false, 1500).is_none());
    let p = m.send_spec_frames(vec![2], false, 1600);
    assert!(matches!(p, Some(ClientPacket::SpectatorFrames { host_id: 6, ref frames }) if frames.len() == 20));
    assert!(m.spectator_info.outgoing_frames.is_empty());
    assert!(m.send_spec_frames(vec![3], false, 2000).is_none());
    let p = m.send_spec_frames(vec![4], false, 2601);
    assert!(matches!(p, Some(ClientPacket::SpectatorFrames { ref frames, .. }) if frames == &vec![3, 4]));
    let p = m.send_spec_frames(vec![], true, 2602);
    assert!(matches!(p, Some(ClientPacket::SpectatorFrames { ref frames, .. }) if frames.is_empty()));
}

#[test]
fn disconnect_and_reset() {
    let mut m = Manager::new();
    let p = m.connected("me".to_string(), "pw".to_string());
    assert!(m.connected);
    assert!(matches!(p, ClientPacket::UserLogin { protocol_version: 1, ref game, .. } if game == "Tataku\n0.1.0"));
    let mut out = Vec::new();
    m.handle_packet(ServerPacket::LoginResponse { status: LoginStatus::Success, user_id: 2 }, 0, &mut out);
    let out = m.connection_closed();
    assert!(!m.connected && !m.logged_in);
    assert_eq!(notice_texts(&out), vec![("Disconnected from server".to_string(), NotificationColor::Red, 5000)]);
    assert_eq!(m.user_id, 2);
    let e = m.reset();
    assert!(matches!(e, OnlineEvent::Disconnected));
    assert_eq!(m.user_id, 0);
    assert_eq!(m.chat_messages.len(), 1);
}
