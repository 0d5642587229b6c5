use tataku::notifications::{NotificationColor, NotificationOnClick};
use tataku::tasks::{
    check_credentials, contains_string, next_score_submit_path, screenshot_result, upload_url, ActionTask,
    CheckBeatmapFoldersTask, DelayTask, DiffCalcKey, DiffCalcStep, DiffCalcTask, DiffCalcTaskIter,
    InitGameAction, InitGameTask, LoadBeatmapsTask, LoadStep, LoadingStatus, NotSubmittedReason,
    ScoreSubmitHelper, ScoreSubmitResponse, ScreenshotAction, ServerSettings, SubmitResponse,
    TatakuTaskState, TatakuTaskType, UploadScoreTask, UploadScreenshotTask, UploadFailure, score_upload_failed,
    screenshot_upload_failed, screenshot_link_for,
};

fn settings(user: &str, pass: &str) -> ServerSettings {
    ServerSettings { username: user.to_string(), password: pass.to_string(), score_url: "https://s.example".to_string() }
}

#[test]
fn action_task_hands_out_once() {
    let mut t = ActionTask::new(5u32);
    assert_eq!(t.get_state(), TatakuTaskState::NotStarted);
    assert_eq!(t.get_name(), "action_task");
    assert_eq!(t.run(), Some(5));
    assert_eq!(t.get_state(), TatakuTaskState::Complete);
    assert_eq!(t.run(), None);
}

#[test]
fn delay_task_waits_for_delay() {
    let mut t = DelayTask::new("x", 100);
    assert_eq!(t.run(1000), None);
    assert_eq!(t.get_state(), TatakuTaskState::Running);
    assert_eq!(t.run(1099), None);
    assert_eq!(t.run(1100), Some("x"));
    assert_eq!(t.get_state(), TatakuTaskState::Complete);
    assert_eq!(t.run(2000), None);

    let mut b = DelayTask::new_from_boxed(Box::new(3u8), 0);
    assert_eq!(b.run(7), None);
    assert_eq!(b.run(7), Some(3));
}

#[test]
fn init_game_task_steps() {
    let mut t = InitGameTask::new();
    let mut statuses: Vec<LoadingStatus> = Vec::new();
    let a = t.run(&mut statuses);
    assert_eq!(a, vec![InitGameAction::PreloadFonts, InitGameAction::LoadBeatmaps { status_index: 0 }]);
    assert_eq!(statuses.len(), 1);
    assert_eq!(statuses[0].name, "Loading beatmaps");
    assert!(!statuses[0].complete);
    assert_eq!(t.get_state(), TatakuTaskState::Running);
    assert!(t.run(&mut statuses).is_empty());
    statuses[0].complete = true;
    assert_eq!(t.run(&mut statuses), vec![InitGameAction::NextBeatmap, InitGameAction::OpenMainMenu]);
    assert_eq!(t.get_state(), TatakuTaskState::Complete);
}

#[test]
fn load_beatmaps_task_hands_out_each_map() {
    let mut t: LoadBeatmapsTask<&str> = LoadBeatmapsTask::new(2);
    let mut status = LoadingStatus::new("maps".to_string());
    assert!(matches!(t.run(&mut status), LoadStep::LoadDatabase));
    t.start(vec!["ignored".to_string()], vec!["a", "b"], &mut status);
    assert_eq!(status.item_count, 2);
    assert_eq!(t.get_status_index(), 2);
    assert!(matches!(t.run(&mut status), LoadStep::Check("b")));
    assert!(matches!(t.run(&mut status), LoadStep::Check("a")));
    assert_eq!(status.items_complete, 2);
    assert!(matches!(t.run(&mut status), LoadStep::Finished));
    assert!(status.complete);
    assert_eq!(t.get_state(), TatakuTaskState::Complete);
}

#[test]
fn strings_in_list() {
    let list = vec!["a".to_string(), "bc".to_string()];
    assert!(contains_string(&list, &"bc".to_string()));
    assert!(!contains_string(&list, &"b".to_string()));
}

#[test]
fn check_folders_skips_known_folders() {
    let mut t = CheckBeatmapFoldersTask::new();
    let maps = vec!["songs/a/map.osu".to_string(), "songs/b/x.osu".to_string()];
    t.start(&maps, vec!["songs/a".to_string(), "songs/c".to_string(), "songs/b".to_string(), "songs/d".to_string()]);
    assert_eq!(t.get_state(), TatakuTaskState::Running);
    assert_eq!(t.next_folder(), Some("songs/d".to_string()));
    assert_eq!(t.next_folder(), Some("songs/c".to_string()));
    assert_eq!(t.next_folder(), None);
    assert_eq!(t.get_state(), TatakuTaskState::Complete);
}

#[test]
fn score_submit_paths_count_up() {
    let mut counter = 0u16;
    assert_eq!(next_score_submit_path(&mut counter), "var.score_submits.0");
    assert_eq!(next_score_submit_path(&mut counter), "var.score_submits.1");
    counter = 41;
    assert_eq!(next_score_submit_path(&mut counter), "var.score_submits.41");
    assert_eq!(counter, 42);
}

#[test]
fn upload_score_task_flow() {
    let mut counter = 7u16;
    let s = settings("me", "pw");
    let mut t = UploadScoreTask::new(99u32, 1234, "taiko".to_string(), "osu".to_string(), &s, &mut counter);
    assert_eq!(counter, 8);
    assert_eq!(t.get_path(), "var.score_submits.7");
    assert_eq!(t.submission().game, "tataku");
    assert_eq!(t.submission().map_info.map_hash, 1234);
    assert!(check_credentials(t.submission()).is_none());
    let mut slot = t.begin();
    assert_eq!(t.get_state(), TatakuTaskState::Running);
    assert!(!slot.completed);
    let n = t.finish(SubmitResponse::Submitted { score_id: 5, placing: 2, performance_rating_bits: 9 }, &mut slot);
    assert!(n.is_none());
    assert_eq!(slot, ScoreSubmitResponse { completed: true, score_id: 5, placing: 2, performance_rating_bits: 9 });
    assert_eq!(t.get_state(), TatakuTaskState::Complete);
}

#[test]
fn refused_score_gives_notification() {
    let mut counter = 0u16;
    let s = settings("me", "pw");
    let mut t = UploadScoreTask::new(1u32, 1, "osu".to_string(), "osu".to_string(), &s, &mut counter);
    let mut slot = t.begin();
    let n = t
        .finish(SubmitResponse::NotSubmitted(NotSubmittedReason::UserBanned, "banned".to_string()), &mut slot)
        .unwrap();
    assert_eq!(n.text, "Error submitting score: banned");
    assert_eq!(n.color, NotificationColor::Red);
    assert!(slot.completed);
    assert_eq!(slot.score_id, 0);
}

#[test]
fn missing_credentials_are_refused() {
    let mut counter = 0u16;
    let s = settings("", "pw");
    let t = UploadScoreTask::new(1u32, 1, "osu".to_string(), "osu".to_string(), &s, &mut counter);
    match check_credentials(t.submission()) {
        Some(SubmitResponse::NotSubmitted(NotSubmittedReason::NoUser, msg)) => {
            assert_eq!(msg, "No user/password in settings")
        }
        other => panic!("unexpected {:?}", other),
    }
}

#[test]
fn screenshot_urls() {
    let s = settings("me", "pw");
    assert_eq!(upload_url(&s), "https://s.example/screenshots?username=me&password=pw");
    assert_eq!(screenshot_result("https://s.example", "42").unwrap(), "https://s.example/screenshots/42");
    assert_eq!(screenshot_result("u", "-7").unwrap(), "u/screenshots/-7");
    let e = screenshot_result("u", "abc").unwrap_err();
    assert_eq!(e.text, "Error parsing screenshot id: invalid digit found in string");
    let e = screenshot_result("u", "").unwrap_err();
    assert_eq!(e.text, "Error parsing screenshot id: cannot parse integer from empty string");
}

#[test]
fn screenshot_task_flow() {
    let mut t = UploadScreenshotTask::new("shot.png".to_string());
    assert_eq!(t.get_screenshot_path(), "shot.png");
    let n = t.begin();
    assert_eq!(n.text, "Uploading screenshot...");
    assert_eq!(n.color, NotificationColor::Yellow);
    let actions = t.finish(Ok("https://x/1".to_string()));
    assert_eq!(actions.len(), 2);
    match &actions[0] {
        ScreenshotAction::Notify(n) => {
            assert_eq!(n.text, "Screenshot uploaded https://x/1");
            assert!(matches!(&n.onclick, NotificationOnClick::Url(u) if u == "https://x/1"));
        }
        other => panic!("unexpected {:?}", other),
    }
    assert!(matches!(&actions[1], ScreenshotAction::CopyToClipboard(u) if u == "https://x/1"));
    assert_eq!(t.get_state(), TatakuTaskState::Complete);

    let mut t2 = UploadScreenshotTask::new("s".to_string());
    let err = screenshot_result("u", "x").unwrap_err();
    let actions = t2.finish(Err(err));
    assert_eq!(actions.len(), 1);
}

#[test]
fn diff_calc_walk_covers_every_combination() {
    let mut it = DiffCalcTaskIter::new(2);
    let mut keys: Vec<DiffCalcKey> = Vec::new();
    while let Some(k) = it.next() {
        keys.push(k);
    }
    assert_eq!(keys.len(), 191 * 2);
    assert_eq!(keys[0], DiffCalcKey { speed: 50, mods_index: 0 });
    assert_eq!(keys[1], DiffCalcKey { speed: 50, mods_index: 1 });
    assert_eq!(keys[2], DiffCalcKey { speed: 55, mods_index: 0 });
    assert_eq!(keys[381], DiffCalcKey { speed: 1000, mods_index: 1 });
    assert!(it.next().is_none());

    let mut none = DiffCalcTaskIter::new(0);
    assert!(none.next().is_none());
}

#[test]
fn diff_calc_task_pauses_and_redoes() {
    let mut t = DiffCalcTask::new(1);
    let first = t.run(false, false);
    assert_eq!(first, DiffCalcStep::Calculate(DiffCalcKey { speed: 50, mods_index: 0 }));
    t.started(DiffCalcKey { speed: 50, mods_index: 0 });
    assert_eq!(t.run(false, false), DiffCalcStep::Waiting);
    assert_eq!(t.run(true, false), DiffCalcStep::Paused { aborted: Some(DiffCalcKey { speed: 50, mods_index: 0 }) });
    assert_eq!(t.get_state(), TatakuTaskState::Paused);
    assert_eq!(t.run(false, false), DiffCalcStep::Calculate(DiffCalcKey { speed: 55, mods_index: 0 }));
    t.started(DiffCalcKey { speed: 55, mods_index: 0 });
    assert_eq!(t.run(false, true), DiffCalcStep::Collected(DiffCalcKey { speed: 55, mods_index: 0 }));
    let mut last = DiffCalcStep::Waiting;
    let mut steps = 0;
    loop {
        let s = t.run(false, true);
        steps += 1;
        if let DiffCalcStep::Calculate(k) = s {
            last = s;
            if k.speed == 50 {
                break;
            }
        } else {
            panic!("unexpected {:?}", s);
        }
    }
    // the interrupted combination comes last, after every speed up to 1000
    assert_eq!(steps, 189 + 1);
    assert_eq!(last, DiffCalcStep::Calculate(DiffCalcKey { speed: 50, mods_index: 0 }));
    assert_eq!(t.run(false, true), DiffCalcStep::Complete);
    assert_eq!(t.get_state(), TatakuTaskState::Complete);
}

#[test]
fn score_submit_helper_flow() {
    let s = settings("me", "pw");
    let mut h = ScoreSubmitHelper::new(3u8, &s, "osu".to_string());
    assert_eq!(h.submit(), Some("https://s.example/score_submit".to_string()));
    let r = h.request(77, "taiko".to_string());
    assert_eq!(*r.score, 3);
    assert_eq!(r.game, "tataku");
    assert_eq!(r.map_info.game, "osu");
    h.received::<String>(Err("bad".to_string()));
    assert!(matches!(&h.response, Some(SubmitResponse::NotSubmitted(NotSubmittedReason::InternalError, m)) if m == "Error reading server response"));
    h.received::<String>(Ok(SubmitResponse::Submitted { score_id: 1, placing: 1, performance_rating_bits: 0 }));
    assert!(matches!(&h.response, Some(SubmitResponse::Submitted { score_id: 1, .. })));
    h.serialize_failed();
    assert!(matches!(&h.response, Some(SubmitResponse::NotSubmitted(NotSubmittedReason::InternalError, m)) if m == "Error serializing replay"));
    assert_eq!(h.send_failed("timeout").text, "error submitting score: timeout");

    let mut anon = ScoreSubmitHelper::new(3u8, &settings("me", ""), "osu".to_string());
    assert_eq!(anon.submit(), None);
    assert!(matches!(&anon.response, Some(SubmitResponse::NotSubmitted(NotSubmittedReason::NoUser, _))));
}

#[test]
fn upload_failures() {
    let r = score_upload_failed(UploadFailure::Send, "timed out");
    assert!(matches!(&r, SubmitResponse::NotSubmitted(NotSubmittedReason::InternalError, m) if m == "error submitting score: timed out"));
    let r = score_upload_failed(UploadFailure::Prepare, "x");
    assert!(matches!(&r, SubmitResponse::NotSubmitted(NotSubmittedReason::InternalError, m) if m == "Error serializing replay"));
    let r = score_upload_failed(UploadFailure::ReadAnswer, "x");
    assert!(matches!(&r, SubmitResponse::NotSubmitted(NotSubmittedReason::InternalError, m) if m == "Error reading server response"));
    let n = screenshot_upload_failed(UploadFailure::Prepare, "no file");
    assert_eq!(n.text, "Error loading screenshot to send to server: no file");
    assert_eq!(screenshot_upload_failed(UploadFailure::Send, "e").text, "Error sending screenshot request: e");
    assert_eq!(screenshot_upload_failed(UploadFailure::ReadAnswer, "e").text, "Error reading screenshot response: e");
}

#[test]
fn task_names() {
    assert_eq!(InitGameTask::new().get_name(), "Initialize Game");
    assert_eq!(LoadBeatmapsTask::<u8>::new(0).get_name(), "Load Beatmap Task");
    assert_eq!(CheckBeatmapFoldersTask::new().get_name(), "Check Beatmap Folders");
    assert_eq!(UploadScreenshotTask::new("x".to_string()).get_name(), "Upload Screentho");
    let mut counter = 0u16;
    let t = UploadScoreTask::new(1u8, 1, "osu".to_string(), "osu".to_string(), &settings("a", "b"), &mut counter);
    assert_eq!(t.get_name(), "Upload Score");
    let mut d = DelayTask::new(ActionTask::new(1u8), 0);
    assert_eq!(d.get_name("action_task"), "Delayed (action_task)");
    d.run(0);
    let _ = d.run(0);
    assert_eq!(d.get_name("action_task"), "Delayed (Fulfilled)");
}

#[test]
fn screenshot_links_from_parsed_answers() {
    assert_eq!(screenshot_link_for("u", Ok(12)).unwrap(), "u/screenshots/12");
    assert_eq!(screenshot_link_for("u", Ok(-3)).unwrap(), "u/screenshots/-3");
    let n = screenshot_link_for("u", Err("bad".to_string())).unwrap_err();
    assert_eq!(n.text, "Error parsing screenshot id: bad");
    assert_eq!(n.color, NotificationColor::Red);
}

#[test]
fn known_folders_are_skipped() {
    let known = CheckBeatmapFoldersTask::known_folders(&vec![
        "songs/a/1.osu".to_string(),
        "songs/a/2.osu".to_string(),
        "songs/b/1.osu".to_string(),
        "map.osu".to_string(),
    ]);
    assert_eq!(known, vec!["songs/a".to_string(), "songs/b".to_string(), "".to_string()]);
    let mut t = CheckBeatmapFoldersTask::new();
    t.start_with_known(vec!["x".to_string()], vec!["x".to_string(), "y".to_string(), "x".to_string(), "z".to_string()]);
    assert_eq!(t.next_folder(), Some("z".to_string()));
    assert_eq!(t.next_folder(), Some("y".to_string()));
    assert_eq!(t.next_folder(), None);
}

#[test]
fn score_submit_url() {
    let mut counter = 0u16;
    let t = UploadScoreTask::new(1u8, 1, "osu".to_string(), "osu".to_string(), &settings("a", "b"), &mut counter);
    assert_eq!(t.submit_url(), "https://s.example/score_submit");
}

#[test]
fn every_task_runs_once() {
    let mut counter = 0u16;
    let score = UploadScoreTask::new(1u8, 1, "osu".to_string(), "osu".to_string(), &settings("a", "b"), &mut counter);
    let types = vec![
        ActionTask::new(1u8).get_type(),
        DelayTask::new(ActionTask::new(1u8), 10).get_type(),
        DelayTask::new_from_boxed(Box::new(3u8), 0).get_type(),
        InitGameTask::new().get_type(),
        LoadBeatmapsTask::<u8>::new(0).get_type(),
        CheckBeatmapFoldersTask::new().get_type(),
        UploadScreenshotTask::new("x".to_string()).get_type(),
        score.get_type(),
        DiffCalcTask::new(2).get_type(),
    ];
    assert!(types.iter().all(|t| *t == TatakuTaskType::Once));
    assert_eq!(DiffCalcTask::new(0).get_id(), "diff_calc");
}

#[test]
fn whole_difficulty_walk() {
    let mut it = DiffCalcTaskIter::new(2);
    let keys = it.collect_rest();
    assert_eq!(keys.len(), 191 * 2);
    assert_eq!(keys[0], DiffCalcKey { speed: 50, mods_index: 0 });
    assert_eq!(keys[1], DiffCalcKey { speed: 50, mods_index: 1 });
    assert_eq!(keys[2], DiffCalcKey { speed: 55, mods_index: 0 });
    assert_eq!(keys[381], DiffCalcKey { speed: 1000, mods_index: 1 });
    for (k, key) in keys.iter().enumerate() {
        assert_eq!(*key, DiffCalcKey { speed: 50 + 5 * (k / 2) as u16, mods_index: k % 2 });
    }
    assert_eq!(it.next(), None);
    assert_eq!(it.next(), None);
    let mut none = DiffCalcTaskIter::new(0);
    assert!(none.collect_rest().is_empty());
    assert_eq!(none.next(), None);
}
