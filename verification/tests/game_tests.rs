use tataku::game::{handle_online_event, OnlineEventStep, ONLINE_RETRY_MS};
use tataku::multiplayer::{LobbyInfo, LobbyState, MultiplayerData};
use tataku::online::OnlineEvent;
use tataku::game::{
    dropped_beatmap_step, plan_beatmap_action, screenshot_file_name,
    screenshot_saved_notification, BeatmapChoice, BeatmapStep, LocalDateTime, MapActionIfNone,
};
use tataku::notifications::NotificationOnClick;
use tataku::game::{
    file_drop_kind, missing_map_notification, next_gameplay_id, previous_menu, should_add_task,
    skin_added_notification, toggle_user_panel, unknown_file_notification, update_playmode, CurrentGameAction,
    CurrentGameStep, FileDropKind, GameplaySlots, PreviousMenu, extension_kind, set_playmode,
};
use tataku::notifications::NotificationColor;
use tataku::ui::UiManager;
use tataku::values::{GamemodeInfo, GamemodeInfos, GlobalInfo};

#[test]
fn previous_menus() {
    assert!(matches!(previous_menu(true, true, "score_menu"), PreviousMenu::CustomMenu(m) if m == "lobby_menu"));
    assert!(matches!(previous_menu(false, true, "score_menu"), PreviousMenu::SpectatorMenu));
    assert!(matches!(previous_menu(false, false, "score_menu"), PreviousMenu::CustomMenu(m) if m == "beatmap_select"));
    assert!(matches!(previous_menu(false, false, "beatmap_select"), PreviousMenu::CustomMenu(m) if m == "main_menu"));
    assert!(matches!(previous_menu(false, false, "main_menu"), PreviousMenu::Unhandled));
}

#[test]
fn dropped_files_by_extension() {
    assert_eq!(file_drop_kind("/maps/set.osz"), Some(FileDropKind::BeatmapSet));
    assert_eq!(file_drop_kind("set.qp"), Some(FileDropKind::BeatmapSet));
    assert_eq!(file_drop_kind("set.ptm"), Some(FileDropKind::BeatmapSet));
    assert_eq!(file_drop_kind("skin.osk"), Some(FileDropKind::Skin));
    assert_eq!(file_drop_kind("play.ttkr"), Some(FileDropKind::Replay));
    assert_eq!(file_drop_kind("play.osr"), Some(FileDropKind::Replay));
    assert_eq!(file_drop_kind("notes.txt"), Some(FileDropKind::Unknown));
    assert_eq!(file_drop_kind("README"), None);
}

#[test]
fn game_notifications() {
    let n = unknown_file_notification();
    assert_eq!((n.text.as_str(), n.color, n.duration_ms), ("What is this?", NotificationColor::Red, 3000));
    let n = skin_added_notification("cool");
    assert_eq!((n.text.as_str(), n.color, n.duration_ms), ("Added skin cool", NotificationColor::Blue, 5000));
    let n = missing_map_notification();
    assert_eq!((n.text.as_str(), n.color, n.duration_ms), ("You don't have that map!", NotificationColor::Red, 5000));
}

#[test]
fn gameplay_ids_are_fresh() {
    assert_eq!(next_gameplay_id(&vec![]), 0);
    assert_eq!(next_gameplay_id(&vec![3, 9, 1]), 10);
    let ids = vec![0, 4, 2];
    let id = next_gameplay_id(&ids);
    assert!(ids.iter().all(|i| *i < id));
}

#[test]
fn diffcalc_tasks_only_when_enabled() {
    assert!(!should_add_task(false, "diff_calc"));
    assert!(should_add_task(true, "diff_calc"));
    assert!(should_add_task(false, "load_beatmaps"));
}

fn infos() -> GamemodeInfos {
    GamemodeInfos {
        by_num: vec![
            GamemodeInfo { id: "osu".to_string(), display_name: "Osu".to_string() },
            GamemodeInfo { id: "taiko".to_string(), display_name: "Taiko".to_string() },
        ],
    }
}

#[test]
fn playmode_updates() {
    let mut g = GlobalInfo::new(infos(), (), "me".to_string(), "osu".to_string());
    assert_eq!(g.playmode_display, "Osu");
    assert!(!update_playmode(&mut g, "Mania", None));
    assert_eq!(g.playmode, "osu");
    assert!(update_playmode(&mut g, "TAIKO", None));
    assert_eq!((g.playmode.as_str(), g.playmode_display.as_str()), ("taiko", "Taiko"));
    assert_eq!(g.playmode_actual, "taiko");
    assert!(update_playmode(&mut g, "taiko", Some((false, "osu".to_string()))));
    assert_eq!((g.playmode_actual.as_str(), g.playmode_actual_display.as_str()), ("osu", "Osu"));
    assert!(update_playmode(&mut g, "taiko", Some((true, "osu".to_string()))));
    assert_eq!(g.playmode_actual, "taiko");
}

#[test]
fn pausing_and_resuming() {
    let mut slots = GameplaySlots { ingame: Some(1u8), pending: None };
    assert!(matches!(slots.handle_current_game_action(CurrentGameAction::Pause("pause_menu".to_string())), CurrentGameStep::ShowMenu(m) if m == "pause_menu"));
    assert_eq!((slots.ingame, slots.pending), (None, Some(1)));
    assert!(matches!(slots.handle_current_game_action(CurrentGameAction::Pause("x".to_string())), CurrentGameStep::NoGame));
    assert!(matches!(slots.handle_current_game_action(CurrentGameAction::Resume), CurrentGameStep::Resume(1)));
    assert!(matches!(slots.handle_current_game_action(CurrentGameAction::Restart), CurrentGameStep::NoGame));
    slots.pending = Some(2);
    assert!(matches!(slots.handle_current_game_action(CurrentGameAction::Free), CurrentGameStep::Free(2)));
}

#[test]
fn user_panel_toggles() {
    let mut ui: UiManager<&str, u8> = UiManager::new("root");
    ui.add_dialog("chat".to_string(), false, "chat");
    assert!(toggle_user_panel(&mut ui, "panel"));
    assert_eq!(ui.dialogs.len(), 1);
    assert_eq!(ui.dialogs[0].name, "user_panel");
    assert!(!toggle_user_panel(&mut ui, "panel2"));
    assert!(ui.dialogs.is_empty());
}

#[test]
fn beatmap_action_plans() {
    assert_eq!(
        plan_beatmap_action(BeatmapChoice::ConfirmSelected { in_lobby: false, is_host: false, has_map: true }),
        vec![BeatmapStep::PlaySelected]
    );
    assert_eq!(
        plan_beatmap_action(BeatmapChoice::ConfirmSelected { in_lobby: true, is_host: true, has_map: true }),
        vec![BeatmapStep::OpenLobbyMenu, BeatmapStep::UpdateLobbyBeatmap]
    );
    assert_eq!(
        plan_beatmap_action(BeatmapChoice::ConfirmSelected { in_lobby: true, is_host: false, has_map: true }),
        vec![BeatmapStep::OpenLobbyMenu]
    );
    assert_eq!(
        plan_beatmap_action(BeatmapChoice::ConfirmSelected { in_lobby: true, is_host: true, has_map: false }),
        vec![BeatmapStep::OpenLobbyMenu]
    );
    let set = |known, in_lobby, if_none| BeatmapChoice::SetFromHash {
        known,
        in_lobby,
        restart_song: false,
        use_preview_point: true,
        if_none,
    };
    assert_eq!(
        plan_beatmap_action(set(true, true, MapActionIfNone::SetNone)),
        vec![BeatmapStep::SelectRequested { restart_song: false, use_preview: true }]
    );
    assert_eq!(plan_beatmap_action(set(false, true, MapActionIfNone::ContinueCurrent)), vec![BeatmapStep::Remove]);
    assert!(plan_beatmap_action(set(false, false, MapActionIfNone::ContinueCurrent)).is_empty());
    assert_eq!(plan_beatmap_action(set(false, false, MapActionIfNone::SetNone)), vec![BeatmapStep::Remove]);
    assert_eq!(
        plan_beatmap_action(set(false, false, MapActionIfNone::Random(false))),
        vec![BeatmapStep::SelectRandom { restart_song: false, use_preview: false }]
    );
    assert!(plan_beatmap_action(BeatmapChoice::Previous { found: true, if_none: MapActionIfNone::SetNone }).is_empty());
    assert_eq!(
        plan_beatmap_action(BeatmapChoice::Previous { found: false, if_none: MapActionIfNone::SetNone }),
        vec![BeatmapStep::Deselect]
    );
    assert_eq!(
        plan_beatmap_action(BeatmapChoice::Previous { found: false, if_none: MapActionIfNone::Random(true) }),
        vec![BeatmapStep::SelectRandom { restart_song: true, use_preview: true }]
    );
}

#[test]
fn dropped_beatmap_selection() {
    assert_eq!(
        dropped_beatmap_step(Some("main_menu")),
        Some(BeatmapStep::SelectRequested { restart_song: false, use_preview: false })
    );
    assert_eq!(
        dropped_beatmap_step(Some("beatmap_select")),
        Some(BeatmapStep::SelectRequested { restart_song: false, use_preview: true })
    );
    assert_eq!(dropped_beatmap_step(None), None);
}

#[test]
fn screenshot_names() {
    let t = LocalDateTime { year: 2024, month: 3, day: 7, hour: 0, minute: 5, second: 59 };
    assert_eq!(screenshot_file_name(&t), "../Screenshots/2024-3-7--0-5-59.png");
    let n = screenshot_saved_notification("/home/a.png".to_string());
    assert_eq!(n.text, "Screenshot saved to /home/a.png");
    assert_eq!(n.color, NotificationColor::Blue);
    assert!(matches!(n.onclick, NotificationOnClick::File(ref f) if f == "/home/a.png"));
}

#[test]
fn extension_kinds_and_lowercase_playmodes() {
    assert_eq!(extension_kind("osz"), FileDropKind::BeatmapSet);
    assert_eq!(extension_kind("OSZ"), FileDropKind::Unknown);
    assert_eq!(extension_kind("osk"), FileDropKind::Skin);
    assert_eq!(extension_kind("osr"), FileDropKind::Replay);
    assert_eq!(extension_kind(""), FileDropKind::Unknown);
    let mut g = GlobalInfo::new(infos(), (), "me".to_string(), "osu".to_string());
    // set_playmode takes the id as it is: an upper-case id is no gamemode's
    assert!(!set_playmode(&mut g, "TAIKO".to_string(), None));
    assert!(set_playmode(&mut g, "taiko".to_string(), Some((false, "osu".to_string()))));
    assert_eq!((g.playmode.as_str(), g.playmode_actual.as_str()), ("taiko", "osu"));
}

fn lobby(id: u32) -> LobbyInfo {
    LobbyInfo {
        id,
        name: "l".to_string(),
        host: 1,
        players: vec![1],
        has_password: true,
        current_beatmap: None,
        state: LobbyState::Idle,
    }
}

#[test]
fn online_events() {
    let mut g = GlobalInfo::new(infos(), (), "me".to_string(), "osu".to_string());
    let mut d = MultiplayerData::new();
    d.insert_lobby(lobby(4));
    let steps = handle_online_event(&mut g, &mut d, OnlineEvent::LoggedIn { user_id: 7, username: "bob".to_string() });
    assert!(steps.is_empty());
    assert!(g.logged_in);
    assert_eq!((g.user_id, g.username.as_str()), (7, "bob"));

    let steps = handle_online_event(&mut g, &mut d, OnlineEvent::Disconnected);
    assert!(matches!(steps.as_slice(), [OnlineEventStep::RestartOnlineAfter(ONLINE_RETRY_MS)]));
    assert_eq!(ONLINE_RETRY_MS, 10_000);
    assert!(!g.logged_in);
    assert_eq!((g.user_id, g.username.as_str()), (0, "bob"));

    let steps = handle_online_event(
        &mut g,
        &mut d,
        OnlineEvent::LobbyInvite { inviter_id: 2, inviter_username: "amy".to_string(), lobby: lobby(4) },
    );
    assert!(!d.lobbies[&4].has_password);
    match steps.as_slice() {
        [OnlineEventStep::Notify(n)] => {
            assert_eq!(n.text, "amy has invited you to a multiplayer match");
            assert_eq!(n.color, NotificationColor::PurpleAmethyst);
            assert_eq!(n.duration_ms, 10_000);
            assert!(matches!(n.onclick, NotificationOnClick::MultiplayerLobby(4)));
        }
        other => panic!("unexpected {:?}", other),
    }
    let steps = handle_online_event(&mut g, &mut d, OnlineEvent::SpectatorLeft { user_id: 3 });
    assert!(matches!(steps.as_slice(), [OnlineEventStep::SpectatorLeft { user_id: 3 }]));
    let steps = handle_online_event(&mut g, &mut d, OnlineEvent::SpectatorJoined { user_id: 3, username: "c".to_string() });
    assert!(matches!(steps.as_slice(), [OnlineEventStep::SpectatorJoined { user_id: 3, .. }]));
}
