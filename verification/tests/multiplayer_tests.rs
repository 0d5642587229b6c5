use tataku::multiplayer::{LobbyRequest, MultiplayerAction, MultiplayerMenu, MultiplayerStep};
use tataku::multiplayer::{
    copy_ids, without_id, CurrentLobbyInfo, FullLobbyInfo, LobbyInfo, LobbyPacketOutcome, LobbyState,
    LobbyUser, LobbyUserState, MultiplayerData, MultiplayerPacket,
};

fn lobby(id: u32, players: Vec<u32>) -> LobbyInfo {
    LobbyInfo {
        id,
        name: format!("lobby {}", id),
        host: players.first().copied().unwrap_or(0),
        players,
        has_password: true,
        current_beatmap: None,
        state: LobbyState::Idle,
    }
}

fn full_lobby(id: u32, host: u32, players: Vec<u32>) -> FullLobbyInfo {
    FullLobbyInfo {
        id,
        name: "full".to_string(),
        host,
        players: players.into_iter().map(|user_id| LobbyUser { user_id, state: LobbyUserState::InLobby }).collect(),
        current_beatmap: None,
        state: LobbyState::Idle,
    }
}

#[test]
fn id_list_helpers() {
    assert_eq!(copy_ids(&vec![3, 1, 3]), vec![3, 1, 3]);
    assert_eq!(without_id(&vec![3, 1, 3, 2], 3), vec![1, 2]);
    assert_eq!(without_id(&vec![], 3), Vec::<u32>::new());
}

#[test]
fn lobby_list_replaces_everything() {
    let mut d = MultiplayerData::new();
    d.insert_lobby(lobby(9, vec![1]));
    let o = d.handle_lobby_packet(
        MultiplayerPacket::LobbyList { lobbies: vec![lobby(1, vec![1]), lobby(2, vec![2]), lobby(1, vec![5])] },
        0,
        None,
    );
    assert!(matches!(o, LobbyPacketOutcome::Nothing));
    assert_eq!(d.lobbies.len(), 2);
    assert!(!d.lobbies.contains_key(&9));
    // a later entry with the same id replaces the earlier one
    assert_eq!(d.lobbies[&1].players, vec![5]);
}

#[test]
fn create_then_delete_forgets_lobby() {
    let mut d = MultiplayerData::new();
    d.insert_lobby(lobby(1, vec![1]));
    d.handle_lobby_packet(MultiplayerPacket::LobbyCreated { lobby: lobby(2, vec![2]) }, 0, None);
    assert_eq!(d.lobbies.len(), 2);
    d.handle_lobby_packet(MultiplayerPacket::LobbyDeleted { lobby_id: 2 }, 0, None);
    assert_eq!(d.lobbies.len(), 1);
    assert!(d.lobbies.contains_key(&1));
}

#[test]
fn join_then_leave_restores_players() {
    let mut d = MultiplayerData::new();
    d.insert_lobby(lobby(1, vec![10, 11]));
    d.handle_lobby_packet(MultiplayerPacket::LobbyUserJoined { lobby_id: 1, user_id: 12 }, 0, None);
    assert_eq!(d.lobbies[&1].players, vec![10, 11, 12]);
    let o = d.handle_lobby_packet(MultiplayerPacket::LobbyUserLeft { lobby_id: 1, user_id: 12 }, 0, Some(11));
    assert!(matches!(o, LobbyPacketOutcome::Nothing));
    assert_eq!(d.lobbies[&1].players, vec![10, 11]);
}

#[test]
fn leaving_ourselves_means_kicked() {
    let mut d = MultiplayerData::new();
    d.insert_lobby(lobby(1, vec![10, 11]));
    let o = d.handle_lobby_packet(MultiplayerPacket::LobbyUserLeft { lobby_id: 1, user_id: 11 }, 11, Some(11));
    assert!(matches!(o, LobbyPacketOutcome::Kicked));
    assert_eq!(d.lobbies[&1].players, vec![10]);
}

#[test]
fn packets_for_unknown_lobbies_change_nothing() {
    let mut d = MultiplayerData::new();
    d.insert_lobby(lobby(1, vec![10]));
    d.handle_lobby_packet(MultiplayerPacket::LobbyUserJoined { lobby_id: 2, user_id: 12 }, 0, None);
    d.handle_lobby_packet(MultiplayerPacket::LobbyMapChange { lobby_id: 2, title: "x".to_string() }, 0, None);
    assert_eq!(d.lobbies.len(), 1);
    assert_eq!(d.lobbies[&1].players, vec![10]);
}

#[test]
fn map_and_state_changes() {
    let mut d = MultiplayerData::new();
    d.insert_lobby(lobby(1, vec![10]));
    d.handle_lobby_packet(MultiplayerPacket::LobbyMapChange { lobby_id: 1, title: "Song".to_string() }, 0, None);
    d.handle_lobby_packet(MultiplayerPacket::LobbyStateChange { lobby_id: 1, new_state: LobbyState::Playing }, 0, None);
    assert_eq!(d.lobbies[&1].current_beatmap, Some("Song".to_string()));
    assert_eq!(d.lobbies[&1].state, LobbyState::Playing);
    d.clear_password(1);
    assert!(!d.lobbies[&1].has_password);
}

#[test]
fn create_lobby_needs_pending_request_and_login() {
    let mut d = MultiplayerData::new();
    let o = d.handle_lobby_packet(
        MultiplayerPacket::CreateLobby { success: true, lobby: Some(full_lobby(3, 7, vec![7])) },
        7,
        None,
    );
    assert!(matches!(o, LobbyPacketOutcome::Nothing));

    d.lobby_creation_pending = true;
    let o = d.handle_lobby_packet(
        MultiplayerPacket::CreateLobby { success: true, lobby: Some(full_lobby(3, 7, vec![7])) },
        0,
        None,
    );
    assert!(matches!(o, LobbyPacketOutcome::Nothing));

    let o = d.handle_lobby_packet(
        MultiplayerPacket::CreateLobby { success: true, lobby: Some(full_lobby(3, 7, vec![7])) },
        7,
        None,
    );
    match o {
        LobbyPacketOutcome::Entered { lobby, created } => {
            assert!(created);
            assert_eq!(lobby.info.id, 3);
            assert!(lobby.is_host());
            assert!(!lobby.play_pending);
        }
        other => panic!("unexpected {:?}", other),
    }

    let o = d.handle_lobby_packet(MultiplayerPacket::CreateLobby { success: false, lobby: None }, 7, None);
    assert!(matches!(o, LobbyPacketOutcome::Nothing));
}

#[test]
fn join_lobby_enters_when_pending() {
    let mut d = MultiplayerData::new();
    d.lobby_join_pending = true;
    let o = d.handle_lobby_packet(
        MultiplayerPacket::JoinLobby { success: true, lobby: Some(full_lobby(4, 1, vec![1, 7])) },
        7,
        None,
    );
    match o {
        LobbyPacketOutcome::Entered { lobby, created } => {
            assert!(!created);
            assert!(!lobby.is_host());
            assert_eq!(lobby.our_user().map(|u| u.user_id), Some(7));
        }
        other => panic!("unexpected {:?}", other),
    }
}

#[test]
fn our_user_absent() {
    let c = CurrentLobbyInfo::new(full_lobby(4, 1, vec![1, 2]), 7);
    assert!(c.our_user().is_none());
    assert!(c.player_scores.is_empty());
}

#[test]
fn lobby_list_holds_every_lobby() {
    let mut d = MultiplayerData::new();
    d.insert_lobby(lobby(1, vec![1]));
    d.insert_lobby(lobby(2, vec![2]));
    let mut ids: Vec<u32> = d.lobby_list().iter().map(|l| l.id).collect();
    ids.sort();
    assert_eq!(ids, vec![1, 2]);
    d.clear();
    assert!(d.lobby_list().is_empty());
}

#[test]
fn multiplayer_action_steps() {
    let mut d = MultiplayerData::new();
    let steps = d.handle_multiplayer_action::<u8>(MultiplayerAction::StartMultiplayer, None, false, "osu".to_string());
    assert!(matches!(&steps[..], [MultiplayerStep::AddLobbyListener, MultiplayerStep::OpenMenu(MultiplayerMenu::LobbySelect)]));

    let steps = d.handle_multiplayer_action::<u8>(
        MultiplayerAction::CreateLobby { name: "n".to_string(), password: String::new(), private: false, players: 16 },
        None,
        false,
        "osu".to_string(),
    );
    assert!(d.lobby_creation_pending);
    assert!(matches!(&steps[..], [MultiplayerStep::Send(LobbyRequest::Create { players: 16, .. })]));

    // joining the lobby we are in does nothing more than mark the request
    let steps = d.handle_multiplayer_action::<u8>(
        MultiplayerAction::JoinLobby { lobby_id: 3, password: String::new() },
        Some(3),
        false,
        "osu".to_string(),
    );
    assert!(d.lobby_join_pending);
    assert!(steps.is_empty());

    // joining another one leaves ours first
    let steps = d.handle_multiplayer_action::<u8>(
        MultiplayerAction::JoinLobby { lobby_id: 4, password: "pw".to_string() },
        Some(3),
        false,
        "osu".to_string(),
    );
    assert!(matches!(
        &steps[..],
        [
            MultiplayerStep::ForgetLobby,
            MultiplayerStep::Send(LobbyRequest::Leave),
            MultiplayerStep::OpenMenu(MultiplayerMenu::LobbySelect),
            MultiplayerStep::Send(LobbyRequest::Join { lobby_id: 4, .. })
        ]
    ));

    let steps = d.handle_multiplayer_action::<u8>(MultiplayerAction::ExitMultiplayer, Some(4), true, "osu".to_string());
    assert_eq!(steps.len(), 4);
    assert!(matches!(steps[3], MultiplayerStep::RemoveLobbyListener));
    let steps = d.handle_multiplayer_action::<u8>(MultiplayerAction::ExitMultiplayer, None, false, "osu".to_string());
    assert_eq!(steps.len(), 5);
    assert!(matches!(steps[3], MultiplayerStep::OpenMenu(MultiplayerMenu::MainMenu)));

    let steps = d.handle_multiplayer_action::<u8>(
        MultiplayerAction::SetBeatmap { hash: 9, mode: None },
        Some(4),
        false,
        "taiko".to_string(),
    );
    assert!(matches!(&steps[..], [MultiplayerStep::UpdateLobbyBeatmap { hash: 9, mode }] if mode == "taiko"));
    let steps = d.handle_multiplayer_action::<u8>(
        MultiplayerAction::SetBeatmap { hash: 9, mode: Some("mania".to_string()) },
        Some(4),
        false,
        "taiko".to_string(),
    );
    assert!(matches!(&steps[..], [MultiplayerStep::UpdateLobbyBeatmap { mode, .. }] if mode == "mania"));

    assert!(d.handle_multiplayer_action(MultiplayerAction::LobbyAction(5u8), None, false, String::new()).is_empty());
    let steps = d.handle_multiplayer_action(MultiplayerAction::LobbyAction(5u8), Some(1), false, String::new());
    assert!(matches!(&steps[..], [MultiplayerStep::ForwardLobbyAction(5)]));
    let steps = d.handle_multiplayer_action::<u8>(MultiplayerAction::LeaveFromLobby, Some(1), false, String::new());
    assert_eq!(steps.len(), 3);
    let steps = d.handle_multiplayer_action::<u8>(MultiplayerAction::InviteUser { user_id: 8 }, Some(1), false, String::new());
    assert!(matches!(&steps[..], [MultiplayerStep::InviteUser(8)]));
}
