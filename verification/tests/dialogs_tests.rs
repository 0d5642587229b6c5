use tataku::dialogs::{
    BeatmapDialog, ConsoleDialog, CreateLobbyDialog, DirectDownloadDialog, GameAction, GameplayMod, GameplayModGroup,
    GenericDialog, JoinLobbyDialog, LoadingMenu, LobbyPlayerDialog, MessageValue, ModDialog, PauseMenu, SettingsMenu,
    SettingsStep, SpectatorMenu, TestDialog, UserOption, UserPanel, UserPanelEvent, YesNoDialog, YesNoResult,
};
use tataku::chat::ChatChannel;
use tataku::notifications::NotificationColor;
use tataku::tasks::LoadingStatus;

#[test]
fn beatmap_dialog_actions() {
    let d = BeatmapDialog::new(77);
    assert_eq!(d.name(), "beatmap_dialog");
    let a = d.handle_message("delete");
    assert!(matches!(a.as_slice(), [GameAction::DeleteBeatmap(77), GameAction::CloseDialog]));
    let a = d.handle_message("copy_hash");
    assert!(matches!(a.as_slice(), [GameAction::CopyHash(77), GameAction::CloseDialog]));
    assert!(d.handle_message("other").is_empty());
    let n = BeatmapDialog::copy_hash_notification(Ok(()));
    assert_eq!((n.text.as_str(), n.color, n.duration_ms), ("Hash copied to clipboard!", NotificationColor::LightBlue, 3000));
    let n = BeatmapDialog::copy_hash_notification(Err("no clipboard".to_string()));
    assert_eq!((n.text.as_str(), n.color), ("Failed to copy hash to clipboard: no clipboard", NotificationColor::Red));
}

#[test]
fn generic_dialog_buttons() {
    let mut d: GenericDialog<u8> = GenericDialog::new("Options");
    d.add_button("A".to_string(), 1);
    d.add_button("B".to_string(), 2);
    d.add_button("A".to_string(), 3);
    assert_eq!(d.buttons.len(), 2);
    assert_eq!(d.handle_message("A"), Some(&3));
    assert_eq!(d.handle_message("B"), Some(&2));
    assert_eq!(d.handle_message("C"), None);
    assert_eq!(d.name(), "generic_dialog");
}

#[test]
fn yes_no_answers() {
    let d = YesNoDialog::new("Quit".to_string(), "Really?".to_string(), true);
    assert_eq!(d.handle_message("yes"), (Some(YesNoResult::Yes), true));
    assert_eq!(d.handle_message("no"), (Some(YesNoResult::No), true));
    assert_eq!(d.handle_message("cancel"), (Some(YesNoResult::Cancel), true));
    assert_eq!(d.handle_message("force_close"), (Some(YesNoResult::Cancel), false));
    assert_eq!(d.handle_message("what"), (None, false));
}

#[test]
fn console_lines() {
    let mut c = ConsoleDialog::new();
    c.input = "1+1".to_string();
    c.submit("1+1".to_string(), "2".to_string());
    assert!(c.input.is_empty());
    assert_eq!(c.output, vec!["1+1".to_string(), "-> 2\n".to_string()]);
    assert_eq!(c.name(), "console_widget");
}

#[test]
fn small_dialogs() {
    let mut t = TestDialog::new();
    assert_eq!((t.name().as_str(), t.title().as_str()), ("test_weee", "Test Dialog"));
    t.set_num(4);
    assert_eq!(t.get_num(), 4);
    assert!(!t.should_close());
    let mut d = DirectDownloadDialog::new(vec![1u8, 2]);
    assert_eq!(d.items, vec![1, 2]);
    d.force_close();
    assert!(d.should_close());
    assert_eq!(d.name(), "direct_download");
    assert_eq!(SpectatorMenu::new().name(), "spectator_menu");
}

fn m(name: &str, removes: &[&str]) -> GameplayMod {
    GameplayMod {
        name: name.to_string(),
        display_name: name.to_string(),
        description: String::new(),
        removes: removes.iter().map(|s| s.to_string()).collect(),
    }
}

#[test]
fn mod_groups_merge_by_name() {
    let defaults = vec![
        GameplayModGroup { name: "Difficulty".to_string(), mods: vec![m("easy", &["hard"])] },
        GameplayModGroup { name: "Fun".to_string(), mods: vec![] },
    ];
    let groups = vec![
        GameplayModGroup { name: "Fun".to_string(), mods: vec![m("mirror", &[])] },
        GameplayModGroup { name: "Taiko".to_string(), mods: vec![m("kat", &[])] },
    ];
    let d = ModDialog::new(defaults, groups);
    let shape: Vec<(String, usize)> = d.mod_groups.iter().map(|g| (g.name.clone(), g.mods.len())).collect();
    assert_eq!(shape, vec![("Difficulty".to_string(), 1), ("Fun".to_string(), 1), ("Taiko".to_string(), 1)]);
    let total: usize = d.mod_groups.iter().map(|g| g.mods.len()).sum();
    assert_eq!(total, 3);
    let a = d.handle_message(&m("easy", &["hard", "relax"]));
    assert!(matches!(a.as_slice(), [GameAction::ToggleMod(x), GameAction::RemoveMod(y), GameAction::RemoveMod(z)] if x == "easy" && y == "hard" && z == "relax"));
}

#[test]
fn create_lobby_form() {
    let mut d = CreateLobbyDialog::new();
    d.handle_message("lobby_name", MessageValue::Text("room".to_string()));
    d.handle_message("lobby_password", MessageValue::Text("pw".to_string()));
    d.handle_message("lobby_private", MessageValue::Toggle(true));
    d.handle_message("lobby_private", MessageValue::Click);
    let a = d.handle_message("done", MessageValue::Click);
    assert!(matches!(a.as_slice(), [GameAction::CreateLobby { name, password, private: true, players: 16 }, GameAction::CloseDialog] if name == "room" && password == "pw"));
    let a = d.handle_message("close", MessageValue::Click);
    assert!(matches!(a.as_slice(), [GameAction::CloseDialog]));
}

#[test]
fn join_lobby_form() {
    let mut d = JoinLobbyDialog::new(12);
    d.handle_message("password", MessageValue::Text("secret".to_string()));
    let a = d.handle_message("done", MessageValue::Click);
    assert!(matches!(a.as_slice(), [GameAction::JoinLobby { lobby_id: 12, password }, GameAction::CloseDialog] if password == "secret"));
    assert!(d.handle_message("x", MessageValue::Click).is_empty());
}

#[test]
fn lobby_player_options() {
    let d = LobbyPlayerDialog::new(5, 2, false, true);
    assert!(d.shows_host_buttons());
    assert!(!LobbyPlayerDialog::new(5, 2, true, true).shows_host_buttons());
    assert!(matches!(d.handle_message("make_host").as_slice(), [GameAction::ChangeLobbyHost(5), GameAction::CloseDialog]));
    assert!(matches!(d.handle_message("kick").as_slice(), [GameAction::KickSlot(2), GameAction::CloseDialog]));
    assert!(matches!(d.handle_message("close").as_slice(), [GameAction::CloseDialog]));
}

#[test]
fn pause_menu_actions() {
    let mut p = PauseMenu::new(false);
    assert_eq!(p.name(), "pause_menu");
    assert_eq!(p.background_texture(), "pause-overlay");
    assert!(p.can_resume());
    p.handle_message("resume");
    p.handle_message("retry");
    p.handle_message("quit");
    let a = p.update();
    assert!(matches!(a.as_slice(), [GameAction::Resume, GameAction::Restart, GameAction::FreeGame, GameAction::SetMenu(m)] if m == "beatmap_select"));
    assert!(p.update().is_empty());
    let f = PauseMenu::new(true);
    assert_eq!((f.name().as_str(), f.background_texture().as_str()), ("fail_menu", "fail-background"));
    assert!(!f.can_resume());
}

#[test]
fn settings_menu_messages() {
    let s = SettingsMenu::new(5u8);
    assert!(matches!(s.handle_message("revert", &MessageValue::Click), SettingsStep::Revert(5)));
    assert!(matches!(s.handle_message("search", &MessageValue::Text("fast  mode".to_string())), SettingsStep::Search(w) if w == vec!["fast", "", "mode"]));
    assert!(matches!(s.handle_message("close", &MessageValue::Click), SettingsStep::Close { delay_ms: 200 }));
    assert!(matches!(s.handle_message("force_close", &MessageValue::Click), SettingsStep::Close { delay_ms: 200 }));
    assert!(matches!(s.handle_message("var.taiko.x", &MessageValue::Click), SettingsStep::GamemodeSetting));
    assert!(matches!(s.handle_message("settings.volume", &MessageValue::Click), SettingsStep::Setting));
}

#[test]
fn loading_menu_lines_and_completion() {
    let mut l = LoadingMenu::new();
    l.load();
    assert_eq!(l.statuses.len(), 2);
    assert_eq!(l.statuses[0].name, "Loading beatmaps");
    assert_eq!(l.statuses[1].name, "Initializing fonts");
    let a = l.update();
    assert!(matches!(a.as_slice(), [GameAction::LoadBeatmaps]));
    LoadingMenu::fonts_loaded(&mut l.statuses[1]);
    assert_eq!(LoadingMenu::status_line(&l.statuses[1]), "Done");
    assert_eq!(LoadingMenu::status_line_color(&l.statuses[1]), NotificationColor::Green);
    assert_eq!(LoadingMenu::status_line_color(&l.statuses[0]), NotificationColor::Blue);
    l.statuses[0].items_complete = 3;
    l.statuses[0].item_count = 10;
    assert_eq!(LoadingMenu::status_line(&l.statuses[0]), "3/10");
    l.statuses[0].custom_message = "hashing".to_string();
    assert_eq!(LoadingMenu::status_line(&l.statuses[0]), "hashing");
    l.statuses[0].error = Some("bad".to_string());
    assert_eq!(LoadingMenu::status_line(&l.statuses[0]), "Error: bad");
    assert_eq!(LoadingMenu::status_line_color(&l.statuses[0]), NotificationColor::Red);
    assert!(l.update().is_empty());
    l.statuses[0].complete = true;
    let a = l.update();
    assert!(matches!(a.as_slice(), [GameAction::BeatmapNext, GameAction::SetMenu(m)] if m == "main_menu"));
    let _ = LoadingStatus::new("x".to_string());
}

#[test]
fn user_panel_options() {
    let d = UserPanel::user_options(9, "Tataku 0.1");
    let texts: Vec<&str> = d.buttons.iter().map(|b| b.0.as_str()).collect();
    assert_eq!(texts, vec!["Spectate", "Send Message", "Add Friend", "Invite to Lobby", "Close"]);
    let d = UserPanel::user_options(9, "osu");
    assert_eq!(d.buttons.len(), 4);
    assert_eq!(d.buttons[0].1, UserOption::SendMessage);
    let a = UserPanel::run_option(UserOption::Spectate(9), &"bob".to_string());
    assert!(matches!(a.as_slice(), [GameAction::Spectate(9), GameAction::CloseDialog]));
    let a = UserPanel::run_option(UserOption::SendMessage, &"bob".to_string());
    assert!(matches!(a.as_slice(), [GameAction::OpenChat(n), GameAction::CloseDialog] if n == "bob"));
    let mut p = UserPanel::new();
    assert_eq!(p.name(), "user_panel");
    p.handle_event(UserPanelEvent::OpenChat("#lobby".to_string()));
    assert_eq!(p.selected_channel, Some(ChatChannel::Channel { name: "#lobby".to_string() }));
}
