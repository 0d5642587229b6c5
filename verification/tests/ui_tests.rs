use tataku::frame::{GameKey, KeyMods};
use tataku::ui::{
    build_frame_events, DialogActionKind, MenuKeyEvent, MessageOwner, TreeRef, UiActionKind, UiActionStep, UiEvent, UiManager,
    UiMessage,
};

type Ui = UiManager<&'static str, u32>;

fn names(ui: &Ui) -> Vec<String> {
    ui.dialogs.iter().map(|d| d.name.clone()).collect()
}

#[test]
fn new_ui_shows_no_menu() {
    let ui = Ui::new("root");
    assert_eq!(ui.get_menu().as_str(), "None");
    assert!(ui.dialogs.is_empty() && ui.messages.is_empty());
    assert_eq!(ui.dialog_counter, 0);
}

#[test]
fn dialogs_get_increasing_numbers_and_duplicates_are_refused() {
    let mut ui = Ui::new("root");
    assert_eq!(ui.add_dialog("a".to_string(), false, "ta"), Some(0));
    assert_eq!(ui.add_dialog("b".to_string(), false, "tb"), Some(1));
    assert_eq!(ui.add_dialog("a".to_string(), false, "ta2"), None);
    assert_eq!(ui.add_dialog("a".to_string(), true, "ta3"), Some(2));
    assert_eq!(names(&ui), vec!["a", "b", "a"]);
    assert_eq!(ui.close_latest(), Some(2));
    let closed = ui.force_close_all();
    assert_eq!(closed.len(), 3);
    assert!(ui.dialogs.is_empty());
    assert_eq!(ui.add_dialog("c".to_string(), false, "tc"), Some(0));
}

#[test]
fn close_latest_without_dialogs() {
    let ui = Ui::new("root");
    assert_eq!(ui.close_latest(), None);
}

#[test]
fn set_root_drops_menu_messages() {
    let mut ui = Ui::new("root");
    ui.add_message(UiMessage { owner: MessageOwner::Menu, value: 1 });
    ui.add_message(UiMessage { owner: MessageOwner::Dialog(0), value: 2 });
    ui.set_root("menu2", "main_menu".to_string());
    assert_eq!(ui.get_menu().as_str(), "main_menu");
    assert_eq!(ui.root_tree, "menu2");
    assert_eq!(ui.messages.len(), 1);
    assert_eq!(ui.messages[0].value, 2);
}

#[test]
fn messages_are_routed_to_open_trees() {
    let mut ui = Ui::new("root");
    ui.add_dialog("a".to_string(), false, "ta");
    ui.add_dialog("b".to_string(), false, "tb");
    ui.add_message(UiMessage { owner: MessageOwner::Dialog(1), value: 10 });
    ui.add_message(UiMessage { owner: MessageOwner::Dialog(7), value: 11 });
    ui.add_message(UiMessage { owner: MessageOwner::Menu, value: 12 });
    let routed = ui.route_messages();
    assert_eq!(routed, vec![(TreeRef::Dialog(1), 10), (TreeRef::Root, 12)]);
    assert!(ui.messages.is_empty());
}

#[test]
fn update_orders() {
    let mut ui = Ui::new("root");
    ui.add_dialog("a".to_string(), false, "ta");
    ui.add_dialog("b".to_string(), false, "tb");
    let mods = KeyMods { ctrl: true, alt: false, shift: true };
    let u = ui.update(vec!["song_start"], &vec![Some(GameKey::R), None], &vec![Some(GameKey::Other(9))], mods);
    let ev = |key| MenuKeyEvent { key, control: true, alt: false, shift: true };
    assert_eq!(
        u.events,
        vec![UiEvent::Game("song_start"), UiEvent::KeyPress(ev(GameKey::R)), UiEvent::KeyRelease(ev(GameKey::Other(9)))]
    );
    assert_eq!(u.input_order, vec![TreeRef::Dialog(1), TreeRef::Dialog(0), TreeRef::Root]);
    assert_eq!(u.update_order, u.input_order);
    assert_eq!(u.event_order, vec![TreeRef::Dialog(0), TreeRef::Dialog(1), TreeRef::Root]);
    assert_eq!(ui.draw_order(), vec![TreeRef::Root, TreeRef::Dialog(1), TreeRef::Dialog(0)]);
    assert_eq!(ui.reload_skin(), vec![TreeRef::Root, TreeRef::Dialog(0), TreeRef::Dialog(1)]);
    assert_eq!(ui.window_size_changed(&vec![false, true]), vec![TreeRef::Root, TreeRef::Dialog(1)]);
}

#[test]
fn ui_actions_close_and_bring_to_front() {
    let mut ui = Ui::new("root");
    ui.add_dialog("a".to_string(), false, "ta");
    ui.add_dialog("b".to_string(), false, "tb");
    ui.add_dialog("c".to_string(), false, "tc");
    let s = ui.handle_ui_action(Some(TreeRef::Dialog(0)), UiActionKind::Dialog(DialogActionKind::BringToFront));
    assert!(matches!(s, UiActionStep::MovedToFront));
    assert_eq!(names(&ui), vec!["b", "c", "a"]);
    let s = ui.handle_ui_action(Some(TreeRef::Dialog(1)), UiActionKind::Dialog(DialogActionKind::Close));
    assert!(matches!(s, UiActionStep::Closed(ref d) if d.name == "c" && d.num == 2));
    assert_eq!(names(&ui), vec!["b", "a"]);
    let s = ui.handle_ui_action(Some(TreeRef::Root), UiActionKind::Dialog(DialogActionKind::Close));
    assert!(matches!(s, UiActionStep::NotADialog));
    let s = ui.handle_ui_action(None, UiActionKind::Refresh);
    assert!(matches!(s, UiActionStep::NoTree));
    let s = ui.handle_ui_action(Some(TreeRef::Dialog(0)), UiActionKind::Dialog(DialogActionKind::MoveDialog));
    assert!(matches!(s, UiActionStep::ApplyToTree(TreeRef::Dialog(0))));
    let s = ui.handle_ui_action(Some(TreeRef::Root), UiActionKind::UpdateStyle);
    assert!(matches!(s, UiActionStep::ApplyToTree(TreeRef::Root)));
    assert_eq!(names(&ui), vec!["b", "a"]);
}

#[test]
fn opened_dialog_is_on_top_and_gets_messages() {
    let mut u: UiManager<u8, u8> = UiManager::new(0);
    let a = u.add_dialog("a".to_string(), false, 1).unwrap();
    let b = u.add_dialog("b".to_string(), false, 2).unwrap();
    assert_eq!(u.close_latest(), Some(b));
    assert_eq!(u.tree_for(MessageOwner::Dialog(b)), Some(TreeRef::Dialog(1)));
    assert_eq!(u.tree_for(MessageOwner::Dialog(a)), Some(TreeRef::Dialog(0)));
}

#[test]
fn tree_holding_a_node() {
    let mut u: UiManager<Vec<u32>, u8> = UiManager::new(vec![1, 2]);
    u.add_dialog("a".to_string(), false, vec![3]).unwrap();
    u.add_dialog("b".to_string(), false, vec![3, 4]).unwrap();
    assert_eq!(u.tree_with_node(|t: &Vec<u32>| t.contains(&2)), Some(TreeRef::Root));
    assert_eq!(u.tree_with_node(|t: &Vec<u32>| t.contains(&3)), Some(TreeRef::Dialog(0)));
    assert_eq!(u.tree_with_node(|t: &Vec<u32>| t.contains(&4)), Some(TreeRef::Dialog(1)));
    assert_eq!(u.tree_with_node(|t: &Vec<u32>| t.contains(&9)), None);
}

#[test]
fn frame_events_in_order() {
    let mods = KeyMods { ctrl: false, alt: true, shift: false };
    let ev = |key| MenuKeyEvent { key, control: false, alt: true, shift: false };
    let events = build_frame_events(vec![1u8, 2], &vec![None, Some(GameKey::Escape), Some(GameKey::Key1)], &vec![None], mods);
    assert_eq!(events, vec![UiEvent::Game(1), UiEvent::Game(2), UiEvent::KeyPress(ev(GameKey::Escape)), UiEvent::KeyPress(ev(GameKey::Key1))]);
    let none: Vec<UiEvent<u8>> = build_frame_events(vec![], &vec![], &vec![], mods);
    assert!(none.is_empty());
}
