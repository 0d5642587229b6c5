use tataku::frame::{
    follow_song_state, full_refresh_notification, global_hotkeys, hotkey_lobby, plan_queued_state,
    playmode_set_notification, GameKey, HotkeyStep, KeyMods, OnlineStatus, QueuedStateStep, SongEvent, StateKind,
};
use tataku::multiplayer::MultiplayerAction;
use tataku::notifications::NotificationColor;
use tataku::song::{AudioState, SongInfo};

fn mods(ctrl: bool, shift: bool) -> KeyMods {
    KeyMods { ctrl, shift, alt: false }
}

#[test]
fn screenshot_and_panel_keys_are_taken() {
    let mut keys = vec![GameKey::F12, GameKey::Other(7), GameKey::Key2];
    let steps = global_hotkeys(&mut keys, mods(false, true), GameKey::Other(7), false, false, 4);
    assert_eq!(steps, vec![HotkeyStep::ToggleUserPanel, HotkeyStep::TakeScreenshot { upload: true }, HotkeyStep::SetPlaymode(1)]);
    assert_eq!(keys, vec![GameKey::Key2]);
}

#[test]
fn panel_key_taken_first_hides_other_bindings() {
    let mut keys = vec![GameKey::F12];
    let steps = global_hotkeys(&mut keys, mods(false, false), GameKey::F12, false, false, 0);
    assert_eq!(steps, vec![HotkeyStep::ToggleUserPanel]);
    assert!(keys.is_empty());
}

#[test]
fn ctrl_bindings_need_ctrl() {
    let mut keys = vec![GameKey::O, GameKey::F5, GameKey::R];
    let steps = global_hotkeys(&mut keys, mods(false, false), GameKey::Other(0), false, false, 0);
    assert!(steps.is_empty());
    assert_eq!(keys, vec![GameKey::O, GameKey::F5, GameKey::R]);

    let mut keys = vec![GameKey::O, GameKey::F5, GameKey::R, GameKey::PageUp];
    let steps = global_hotkeys(&mut keys, mods(true, false), GameKey::Other(0), false, false, 0);
    assert_eq!(steps, vec![HotkeyStep::OpenSettings, HotkeyStep::FullRefresh, HotkeyStep::ReloadCustomMenus]);
    assert!(keys.is_empty());
}

#[test]
fn settings_in_a_play_only_when_allowed() {
    let mut keys = vec![GameKey::O];
    assert!(global_hotkeys(&mut keys, mods(true, false), GameKey::Other(0), true, false, 0).is_empty());
    assert!(keys.is_empty());
    let mut keys = vec![GameKey::O];
    assert_eq!(global_hotkeys(&mut keys, mods(true, false), GameKey::Other(0), true, true, 0), vec![HotkeyStep::OpenSettings]);
}

#[test]
fn escape_and_number_keys_stay() {
    let mut keys = vec![GameKey::Escape, GameKey::Key4, GameKey::Key1, GameKey::Grave, GameKey::M, GameKey::H];
    let steps = global_hotkeys(&mut keys, mods(true, true), GameKey::Other(0), false, false, 2);
    assert_eq!(steps, vec![HotkeyStep::CreateLobby, HotkeyStep::OpenConsole, HotkeyStep::CloseLatestDialog, HotkeyStep::SetPlaymode(0)]);
    assert_eq!(keys, vec![GameKey::Escape, GameKey::Key4, GameKey::Key1]);
}

#[test]
fn hotkey_texts() {
    match hotkey_lobby::<u8>() {
        MultiplayerAction::CreateLobby { name, password, private, players } => {
            assert_eq!(name, "a");
            assert_eq!(password, "");
            assert!(!private);
            assert_eq!(players, 5);
        }
        _ => panic!("not a lobby"),
    }
    let n = full_refresh_notification();
    assert_eq!(n.text, "Doing a full refresh, the game will freeze for a bit");
    assert_eq!(n.color, NotificationColor::Red);
    let n = playmode_set_notification("taiko");
    assert_eq!(n.text, "Playmode set to taiko");
    assert_eq!(n.color, NotificationColor::Cyan);
}

#[test]
fn song_state_changes_become_events() {
    let mut info: SongInfo<u32> = SongInfo { position: Some(3), paused: false, playing: false, stopped: false, exists: false, state: AudioState::Unknown };
    assert_eq!(follow_song_state(&mut info, Some(AudioState::Playing)), Some(SongEvent::SongStart));
    assert!(info.playing && info.exists);
    assert_eq!(follow_song_state(&mut info, Some(AudioState::Playing)), None);
    assert_eq!(follow_song_state(&mut info, Some(AudioState::Paused)), Some(SongEvent::SongPause));
    assert_eq!(follow_song_state(&mut info, Some(AudioState::Stopped)), Some(SongEvent::SongEnd));
    assert_eq!(follow_song_state(&mut info, None), None);
    assert_eq!(info.state, AudioState::Unknown);
    assert!(!info.exists);
    assert_eq!(follow_song_state(&mut info, Some(AudioState::Unknown)), None);
    assert_eq!(info.position, Some(3));
}

#[test]
fn queued_states() {
    assert_eq!(plan_queued_state(StateKind::Empty, StateKind::InMenu, false), QueuedStateStep::Stay);
    assert_eq!(plan_queued_state(StateKind::Closing, StateKind::InMenu, false), QueuedStateStep::Close);
    assert_eq!(
        plan_queued_state(StateKind::Ingame { started: false }, StateKind::InMenu, true),
        QueuedStateStep::Switch { start_play: true, rewind_song: true, online: Some(OnlineStatus::Spectating), transition: true }
    );
    assert_eq!(
        plan_queued_state(StateKind::Ingame { started: true }, StateKind::SetMenu { named_pause: true }, false),
        QueuedStateStep::Switch { start_play: true, rewind_song: false, online: Some(OnlineStatus::Playing), transition: false }
    );
    assert_eq!(
        plan_queued_state(StateKind::SetMenu { named_pause: false }, StateKind::Empty, false),
        QueuedStateStep::Switch { start_play: false, rewind_song: false, online: Some(OnlineStatus::Idle), transition: false }
    );
    assert_eq!(
        plan_queued_state(StateKind::InMenu, StateKind::SetMenu { named_pause: false }, false),
        QueuedStateStep::Switch { start_play: false, rewind_song: false, online: None, transition: true }
    );
}
