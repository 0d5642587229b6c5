use std::collections::HashSet;
use tataku::online_content::{
    find_item, none_known, ContentOutput, OnlineContentAction, OnlineContentCapabilities, OnlineContentItem,
    OnlineContentItemType, OnlineContentManager, OnlineContentResults, OnlineContentSearch,
    OnlineContentSearchTask,
};
use tataku::tasks::{TatakuTaskState, TatakuTaskType};

fn item(id: u64, hashes: Vec<u128>, preview: Option<&str>) -> OnlineContentItem<u64> {
    OnlineContentItem {
        id,
        item_type: OnlineContentItemType::BeatmapSet { map_hashes: hashes },
        download: id * 10,
        audio_preview: preview.map(|p| p.to_string()),
    }
}

fn search(engine: &str, page: u32) -> OnlineContentSearch {
    OnlineContentSearch { engine_id: engine.to_string(), page, query: "q".to_string() }
}

fn empty_results() -> OnlineContentResults<u64> {
    OnlineContentResults { items: Vec::new(), count: 0, page: 0, completed: false }
}

fn manager() -> OnlineContentManager {
    OnlineContentManager::new(vec![
        OnlineContentCapabilities { engine_id: "osu".to_string(), display_name: "osu!".to_string() },
        OnlineContentCapabilities { engine_id: "quaver".to_string(), display_name: "Quaver".to_string() },
    ])
}

#[test]
fn known_hashes() {
    let known: HashSet<u128> = [1u128, 2].into_iter().collect();
    assert!(none_known(&vec![3, 4], &known));
    assert!(!none_known(&vec![3, 2], &known));
    assert!(none_known(&vec![], &known));
}

#[test]
fn engines_and_capabilities() {
    let m = manager();
    assert_eq!(m.engine_ids(), vec!["osu".to_string(), "quaver".to_string()]);
    let caps = m.get_capabilities();
    assert_eq!(caps[1].display_name, "Quaver");
}

#[test]
fn search_task_finds_engine_and_filters_owned_sets() {
    let m = manager();
    let mut t = OnlineContentSearchTask::new(search("quaver", 3), m.engine_ids());
    assert_eq!(t.get_state(), TatakuTaskState::NotStarted);
    assert_eq!(t.get_name(), "OnlineContentSearch");
    assert_eq!(t.get_type(), TatakuTaskType::Once);
    let mut results = empty_results();
    results.items.push(item(1, vec![], None));
    assert_eq!(t.begin(&mut results), Some(1));
    assert!(results.items.is_empty());
    assert!(!results.completed);
    let known: HashSet<u128> = [5u128].into_iter().collect();
    t.finish(vec![item(1, vec![1, 2], None), item(2, vec![5], None), item(3, vec![6], None)], 30, &known, &mut results);
    let ids: Vec<u64> = results.items.iter().map(|i| i.id).collect();
    assert_eq!(ids, vec![1, 3]);
    assert_eq!(results.count, 30);
    assert_eq!(results.page, 3);
    assert!(results.completed);
    assert_eq!(t.get_state(), TatakuTaskState::Complete);
    assert_eq!(t.get_search().page, 3);
}

#[test]
fn search_task_without_engine_completes() {
    let m = manager();
    let mut t = OnlineContentSearchTask::new(search("nothing", 0), m.engine_ids());
    let mut results = empty_results();
    assert_eq!(t.begin(&mut results), None);
    assert!(results.completed);
    assert_eq!(t.get_state(), TatakuTaskState::Complete);
}

#[test]
fn page_actions_move_last_search() {
    let mut m = manager();
    let mut results = empty_results();
    assert!(m.handle_action(OnlineContentAction::NextPage, &mut results).is_empty());
    let out = m.handle_action(OnlineContentAction::Search(search("osu", 0)), &mut results);
    assert!(matches!(&out[..], [ContentOutput::StartSearchTask(s)] if s.page == 0 && s.engine_id == "osu"));
    assert!(m.handle_action(OnlineContentAction::PreviousPage, &mut results).is_empty());
    let out = m.handle_action(OnlineContentAction::NextPage, &mut results);
    assert!(matches!(&out[..], [ContentOutput::Search(s)] if s.page == 1));
    let out = m.handle_action(OnlineContentAction::SetPage(7), &mut results);
    assert!(matches!(&out[..], [ContentOutput::Search(s)] if s.page == 7));
    let out = m.handle_action(OnlineContentAction::PreviousPage, &mut results);
    assert!(matches!(&out[..], [ContentOutput::Search(s)] if s.page == 6));
    assert_eq!(m.last_search.as_ref().map(|s| s.page), Some(6));
}

#[test]
fn download_takes_first_matching_item() {
    let mut m = manager();
    let mut results = empty_results();
    results.items = vec![item(1, vec![], None), item(2, vec![], None), item(2, vec![9], None)];
    assert_eq!(find_item(&results.items, 2), Some(1));
    assert_eq!(find_item(&results.items, 4), None);
    let out = m.handle_action(OnlineContentAction::Download(2), &mut results);
    assert!(matches!(&out[..], [ContentOutput::Download(20)]));
    assert_eq!(results.items.len(), 2);
    assert!(matches!(&results.items[1].item_type, OnlineContentItemType::BeatmapSet { map_hashes } if map_hashes == &vec![9]));
    assert!(m.handle_action(OnlineContentAction::Download(4), &mut results).is_empty());
    assert_eq!(results.items.len(), 2);
}

#[test]
fn audio_preview_pushes_queue_then_plays() {
    let mut m = manager();
    let mut results = empty_results();
    results.items = vec![item(1, vec![], None), item(2, vec![], Some("https://p/2.mp3"))];
    let out = m.handle_action(OnlineContentAction::AudioPreview(2), &mut results);
    assert!(matches!(&out[..], [ContentOutput::PushSongQueue, ContentOutput::PreviewAudio(u)] if u == "https://p/2.mp3"));
    assert!(m.handle_action(OnlineContentAction::AudioPreview(1), &mut results).is_empty());
    assert!(m.handle_action(OnlineContentAction::AudioPreview(3), &mut results).is_empty());
    assert_eq!(results.items.len(), 2);
}
