use tataku::notifications::{
    Notification, NotificationColor, NotificationManager, NotificationOnClick, ProcessedNotif,
    ERROR_NOTIFICATION_MS,
};

fn text_of(n: &Notification) -> String {
    n.text.clone()
}

#[test]
fn error_notification_reads_title_and_detail() {
    let n = Notification::new_error("Error loading map", "file not found");
    assert_eq!(n.text, "Error loading map: file not found");
    assert_eq!(n.color, NotificationColor::Red);
    assert_eq!(n.duration_ms, ERROR_NOTIFICATION_MS);
    assert!(matches!(n.onclick, NotificationOnClick::Nothing));
}

#[test]
fn check_time_expires_after_duration() {
    let p = ProcessedNotif::new(Notification::new_text("hi".to_string(), NotificationColor::White, 1000), 500);
    assert!(p.check_time(500));
    assert!(p.check_time(1499));
    assert!(!p.check_time(1500));
    // a clock that went backwards counts as no time elapsed
    assert!(p.check_time(0));
}

#[test]
fn clicked_notification_is_not_shown() {
    let mut p = ProcessedNotif::new(Notification::new_text("hi".to_string(), NotificationColor::White, 1000), 0);
    p.remove = true;
    assert!(!p.check_time(0));
}

#[test]
fn new_notification_is_shown_after_update() {
    let mut m: NotificationManager<u32> = NotificationManager::new();
    m.add_notification(Notification::new_text("a".to_string(), NotificationColor::Blue, 100), 10);
    m.update(10);
    assert_eq!(m.notifications.len(), 1);
}

#[test]
fn update_drops_expired_and_keeps_order() {
    let mut m: NotificationManager<u32> = NotificationManager::new();
    m.add_notification(Notification::new_text("short".to_string(), NotificationColor::Blue, 100), 0);
    m.add_notification(Notification::new_text("long".to_string(), NotificationColor::Blue, 1000), 0);
    m.add_notification(Notification::new_text("later".to_string(), NotificationColor::Blue, 100), 150);
    m.update(200);
    let texts: Vec<String> = m.notifications.iter().map(|p| text_of(&p.notification)).collect();
    assert_eq!(texts, vec!["long".to_string(), "later".to_string()]);
    // updating again at the same time changes nothing
    m.update(200);
    assert_eq!(m.notifications.len(), 2);
}

#[test]
fn draw_order_is_newest_first() {
    let mut m: NotificationManager<u32> = NotificationManager::new();
    for i in 0..3u64 {
        m.add_notification(Notification::new_text(format!("{}", i), NotificationColor::Blue, 100), i);
    }
    assert_eq!(m.draw(), vec![2, 1, 0]);
    let empty: NotificationManager<u32> = NotificationManager::new();
    assert!(empty.draw().is_empty());
}

#[test]
fn click_marks_first_hit_and_returns_action() {
    let mut m: NotificationManager<u32> = NotificationManager::new();
    m.add_notification(Notification::new_text("a".to_string(), NotificationColor::Blue, 100), 0);
    m.add_notification(
        Notification::new("b".to_string(), NotificationColor::Blue, 100, NotificationOnClick::Url("https://x".to_string())),
        0,
    );
    m.add_notification(
        Notification::new("c".to_string(), NotificationColor::Blue, 100, NotificationOnClick::MultiplayerLobby(4)),
        0,
    );
    let r = m.on_click(&vec![false, true, true]);
    match r {
        Some(NotificationOnClick::Url(u)) => assert_eq!(u, "https://x"),
        other => panic!("unexpected {:?}", other),
    }
    assert!(!m.notifications[0].remove);
    assert!(m.notifications[1].remove);
    assert!(!m.notifications[2].remove);
    m.update(0);
    assert_eq!(m.notifications.len(), 2);
}

#[test]
fn click_on_nothing_changes_nothing() {
    let mut m: NotificationManager<u32> = NotificationManager::new();
    m.add_notification(Notification::new_text("a".to_string(), NotificationColor::Blue, 100), 0);
    assert!(m.on_click(&vec![false]).is_none());
    assert!(!m.notifications[0].remove);
}

#[test]
fn reload_skin_keeps_notifications() {
    let mut m: NotificationManager<u32> = NotificationManager::new();
    m.add_notification(Notification::new_text("a".to_string(), NotificationColor::Blue, 100), 0);
    m.reload_skin(Some(7));
    assert_eq!(m.notification_image, Some(7));
    assert_eq!(m.notifications.len(), 1);
    m.reload_skin(None);
    assert_eq!(m.notification_image, None);
}
