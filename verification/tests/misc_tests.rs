use tataku::misc::{
    BeatmapListAction, BeatmapListComponent, BeatmapListGroup, Database, DownloadManager, FullscreenMonitor,
    LastFmIntegration, MapStatus, ProgressReport,
};

#[test]
fn monitor_choices_and_names() {
    let v = FullscreenMonitor::variants(2);
    assert_eq!(v, vec![FullscreenMonitor::NoMonitor, FullscreenMonitor::Monitor(0), FullscreenMonitor::Monitor(1)]);
    let names = vec!["Left".to_string(), "Right".to_string()];
    assert_eq!(FullscreenMonitor::NoMonitor.display(&names), "none");
    assert_eq!(FullscreenMonitor::Monitor(1).display(&names), "(1). Right");
    assert_eq!(FullscreenMonitor::Monitor(12).display(&names), "None");
}

#[test]
fn default_map_status_is_ranked() {
    assert_eq!(MapStatus::default_status(), MapStatus::Ranked);
}

#[test]
fn ignored_beatmaps_table() {
    assert_eq!(Database::ignored_query(), "SELECT * FROM ignore_maps");
    let rows: Vec<Result<String, ()>> = vec![Ok("a".to_string()), Err(()), Ok("b".to_string())];
    assert_eq!(Database::get_all_ignored(rows), vec!["a".to_string(), "b".to_string()]);
    let (q, params) = Database::add_ignored("maps/x".to_string());
    assert_eq!(q, "INSERT INTO ignore_maps (beatmap_path, beatmap_hash) VALUES (?, '')");
    assert_eq!(params, vec!["maps/x".to_string()]);
}

#[test]
fn lastfm_requests() {
    let (url, req) = LastFmIntegration::check("https://s.example", "u".to_string(), "p".to_string());
    assert_eq!(url, "https://s.example/lastfm/check");
    assert_eq!((req.username.as_str(), req.password.as_str()), ("u", "p"));
    let (url, req) = LastFmIntegration::update("https://s.example", "song".to_string(), "band".to_string(), "u".to_string(), "p".to_string());
    assert_eq!(url, "https://s.example/lastfm/set_now_playing");
    assert_eq!((req.track.as_str(), req.artist.as_str()), ("song", "band"));
    assert_eq!((LastFmIntegration {}).name(), "LastFm");
}

#[test]
fn downloads_deduplicate_and_finish() {
    let mut m: DownloadManager<u8, &str, u32> = DownloadManager::new();
    assert!(m.add_download("a.osz".to_string(), 1, Some("open a")));
    assert!(!m.add_download("a.osz".to_string(), 2, None));
    assert!(m.add_download("b.osz".to_string(), 3, None));
    assert_eq!(m.statuses[0].title, "a.osz");
    assert!(!m.statuses[0].downloading);
    let done = m.update(vec![Some(ProgressReport { progress: 100, complete: true }), Some(ProgressReport { progress: 40, complete: false })]);
    assert_eq!(done.len(), 1);
    assert_eq!(done[0].filename, "a.osz");
    assert_eq!(done[0].on_complete, Some("open a"));
    assert_eq!(m.downloads.len(), 1);
    assert_eq!(m.statuses[0].progress, Some(40));
    assert!(m.statuses[0].downloading);
    let done = m.update(vec![None]);
    assert!(done.is_empty());
}

fn group(name: &str, maps: Vec<u128>) -> BeatmapListGroup {
    BeatmapListGroup { name: name.to_string(), number: 99, maps }
}

#[test]
fn beatmap_list_selection() {
    let mut l = BeatmapListComponent::new(Some("filter".to_string()));
    l.filtered_groups = vec![group("a", vec![1, 2]), group("b", vec![3]), group("c", vec![2])];
    l.number_and_select(2);
    assert_eq!(l.filtered_groups.iter().map(|g| g.number).collect::<Vec<_>>(), vec![0, 1, 2]);
    assert_eq!((l.selected_set, l.selected_map), (0, 1));
    l.number_and_select(42);
    assert_eq!((l.selected_set, l.selected_map), (0, 1));
    let a = l.handle_message("beatmap_list.next_set", None, None);
    assert_eq!(l.selected_set, 1);
    assert!(matches!(a.as_slice(), [BeatmapListAction::SetBeatmap(3), BeatmapListAction::ScrollTo { set: 1, of: 3 }]));
    l.handle_message("beatmap_list.prev_set", None, None);
    l.handle_message("beatmap_list.prev_set", None, None);
    assert_eq!(l.selected_set, 2);
    l.handle_message("beatmap_list.next_set", None, None);
    assert_eq!(l.selected_set, 0);
    let a = l.handle_message("beatmap_list.next_map", None, None);
    assert_eq!(l.selected_map, 1);
    assert!(matches!(a.as_slice(), [BeatmapListAction::SetBeatmap(2)]));
    l.handle_message("beatmap_list.next_map", None, None);
    assert_eq!(l.selected_map, 0);
    l.handle_message("beatmap_list.prev_map", None, None);
    assert_eq!(l.selected_map, 1);
    let a = l.handle_message("beatmap_list.set_beatmap", Some(77), None);
    assert!(matches!(a.as_slice(), [BeatmapListAction::SetFromHash(77)]));
    let a = l.handle_message("beatmap_list.set_set", None, Some(9));
    assert!(matches!(a.as_slice(), [BeatmapListAction::ScrollTo { set: 9, of: 3 }]));
}

#[test]
fn beatmap_list_filter_words() {
    let mut l = BeatmapListComponent::new(None);
    l.filter = "Hard  TAIKO ".to_string();
    assert_eq!(l.filter_words(), vec!["hard".to_string(), "taiko".to_string()]);
    l.filter = String::new();
    assert!(l.filter_words().is_empty());
}

#[test]
fn beatmap_list_set_message_without_number() {
    let mut l = BeatmapListComponent::new(None);
    l.filtered_groups = vec![group("a", vec![1, 2])];
    l.select_map(1);
    assert_eq!(l.actions.len(), 1);
    let a = l.handle_message("beatmap_list.set_set", None, None);
    assert!(a.is_empty());
    assert_eq!(l.actions.len(), 1);
    let a = l.handle_message("something_else", None, None);
    assert!(matches!(a.as_slice(), [BeatmapListAction::SetBeatmap(2)]));
    assert!(l.actions.is_empty());
}
