use tataku::discord::{song_times_fit_at, Discord, DiscordStep, TatakuEvent, APP_ID};

#[test]
fn discord_connects_when_enabled() {
    let mut d = Discord::new();
    assert_eq!(d.name(), "Discord");
    assert_eq!(APP_ID, "857981337423577109");
    assert_eq!(d.check_enabled(false, 0), DiscordStep::Nothing);
    assert_eq!(d.check_enabled(true, 10_000), DiscordStep::Connect);
    assert_eq!(d.last_connection_attempt_ms, Some(10_000));
    assert!(!d.reconnect(12_000));
    assert!(d.reconnect(15_000));
    d.connect_succeeded();
    assert!(!d.reconnect(30_000));
    assert_eq!(d.check_enabled(false, 31_000), DiscordStep::Close);
    d.close_succeeded();
    assert!(!d.connected);
}

#[test]
fn discord_presence_texts() {
    let mut d = Discord::new();
    let started = |spectator: Option<&str>, multiplayer: bool| TatakuEvent::BeatmapStarted {
        start_time: 100,
        artist: "A".to_string(),
        title: "T".to_string(),
        creator: "C".to_string(),
        version: "V".to_string(),
        multiplayer,
        spectator: spectator.map(|s| s.to_string()),
    };
    assert!(d.handle_event(&TatakuEvent::BeatmapEnded, 0).is_none());
    d.enabled = true;
    d.connected = true;
    let p = d.handle_event(&started(None, false), 0).unwrap();
    assert_eq!((p.state.as_str(), p.details.as_deref(), p.start, p.end), ("A - T", Some("V by C"), Some(100), None));
    let p = d.handle_event(&started(None, true), 0).unwrap();
    assert_eq!(p.state, "Multiplaying: A - T");
    let p = d.handle_event(&started(Some("P"), true), 0).unwrap();
    assert_eq!(p.state, "Watching P: A - T");
    let p = d.handle_event(&TatakuEvent::SongChanged { artist: "A".to_string(), title: "T".to_string(), elapsed_s: 30, duration_s: 200 }, 1000).unwrap();
    assert_eq!((p.state.as_str(), p.details, p.start, p.end), ("A - T", None, Some(970), Some(1170)));
    let p = d.handle_event(&TatakuEvent::BeatmapEnded, 0).unwrap();
    assert_eq!(p.state, "Idle");
    assert!(d.handle_event(&TatakuEvent::Other, 0).is_none());
}

#[test]
fn song_times_fit_check() {
    let song = |e: i64, d: i64| TatakuEvent::SongChanged { artist: "A".to_string(), title: "T".to_string(), elapsed_s: e, duration_s: d };
    assert!(song_times_fit_at(&song(10, 100), 1000));
    assert!(!song_times_fit_at(&song(i64::MIN, 0), 0));
    assert!(!song_times_fit_at(&song(0, i64::MAX), 1));
    assert!(song_times_fit_at(&TatakuEvent::BeatmapEnded, i64::MIN));
}
