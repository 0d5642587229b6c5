use tataku::gameplay::{
    all_scores, judgment_fails, AffectsCombo, ScoreTally,
    complete_play, frame_step, key_down, CompletionStep, FrameStep, GameplayRules, KeyDownStep, PlayKind, PressedKey,
};

fn rules() -> GameplayRules {
    GameplayRules {
        multi: false,
        replay: false,
        preview: false,
        mode_skips_input: false,
        sends_spec_frames: true,
        autoplay: false,
        failed: false,
        should_pause: false,
        ui_changed: false,
        show_cursor: false,
    }
}

fn key() -> PressedKey {
    PressedKey { repeat: false, escape: false, space: false, restart: false, offset_up: false, offset_down: false, shift: false }
}

#[test]
fn pausing_rules() {
    let r = rules();
    assert!(r.can_pause());
    assert!(!GameplayRules { multi: true, should_pause: true, ..r }.can_pause());
    assert!(!GameplayRules { failed: true, ..r }.can_pause());
    assert!(GameplayRules { failed: true, should_pause: true, ..r }.can_pause());
    assert!(!GameplayRules { autoplay: true, ..r }.can_pause());
}

#[test]
fn cursor_score_and_input_rules() {
    let r = rules();
    assert!(r.should_hide_cursor());
    assert!(!GameplayRules { show_cursor: true, ..r }.should_hide_cursor());
    assert!(!GameplayRules { replay: true, ..r }.should_hide_cursor());
    assert!(r.should_save_score());
    assert!(!GameplayRules { ui_changed: true, ..r }.should_save_score());
    assert!(!GameplayRules { autoplay: true, ..r }.should_save_score());
    assert!(!r.should_skip_input());
    assert!(GameplayRules { failed: true, ..r }.should_skip_input());
    assert!(!GameplayRules { failed: true, multi: true, ..r }.should_skip_input());
    assert!(GameplayRules { mode_skips_input: true, ..r }.should_skip_input());
}

#[test]
fn frames() {
    let r = rules();
    assert_eq!(frame_step(&r, true, false, true), FrameStep::SkipIntro);
    assert_eq!(frame_step(&GameplayRules { multi: true, ..r }, true, false, true), FrameStep::SendSkipRequest);
    assert_eq!(frame_step(&r, false, false, true), FrameStep::Apply { record: true, send: true });
    assert_eq!(frame_step(&r, false, false, false), FrameStep::Apply { record: false, send: false });
    let replay = GameplayRules { replay: true, ..r };
    assert_eq!(frame_step(&replay, false, false, true), FrameStep::Ignore);
    assert_eq!(frame_step(&replay, false, true, true), FrameStep::Apply { record: false, send: false });
    let no_spec = GameplayRules { sends_spec_frames: false, ..r };
    assert_eq!(frame_step(&no_spec, false, false, true), FrameStep::Apply { record: true, send: false });
}

#[test]
fn key_presses() {
    let r = rules();
    assert_eq!(key_down(&r, PressedKey { repeat: true, escape: true, ..key() }, 0), (false, vec![]));
    assert_eq!(key_down(&GameplayRules { replay: true, ..r }, PressedKey { escape: true, ..key() }, 0), (true, vec![KeyDownStep::EndPlay]));
    assert_eq!(key_down(&r, PressedKey { restart: true, ..key() }, 0), (true, vec![KeyDownStep::HoldRestart]));
    assert_eq!(key_down(&GameplayRules { failed: true, ..r }, PressedKey { escape: true, ..key() }, 0), (false, vec![KeyDownStep::EndFailed]));
    assert_eq!(key_down(&r, PressedKey { escape: true, ..key() }, 0), (false, vec![KeyDownStep::Pause]));
    let multi = GameplayRules { multi: true, ..r };
    assert_eq!(key_down(&multi, PressedKey { escape: true, ..key() }, 2999), (true, vec![KeyDownStep::ExitMultiplayer]));
    assert_eq!(key_down(&multi, PressedKey { escape: true, ..key() }, 3000), (true, vec![KeyDownStep::WarnExit]));
    // the restart key does nothing special in multiplayer
    assert_eq!(key_down(&multi, PressedKey { restart: true, ..key() }, 0), (false, vec![]));
    assert_eq!(key_down(&r, PressedKey { offset_up: true, ..key() }, 0), (true, vec![KeyDownStep::Offset(5)]));
    assert_eq!(key_down(&r, PressedKey { offset_down: true, ..key() }, 0), (true, vec![KeyDownStep::Offset(-5)]));
    assert_eq!(
        key_down(&r, PressedKey { offset_up: true, offset_down: true, shift: true, ..key() }, 0),
        (true, vec![KeyDownStep::GlobalOffset(-5)])
    );
    assert_eq!(key_down(&r, PressedKey { shift: true, ..key() }, 0), (false, vec![]));
    assert_eq!(key_down(&r, PressedKey { space: true, ..key() }, 0), (true, vec![KeyDownStep::SkipIntro(FrameStep::SkipIntro)]));
    assert_eq!(
        key_down(&multi, PressedKey { space: true, ..key() }, 0),
        (true, vec![KeyDownStep::SkipIntro(FrameStep::SendSkipRequest)])
    );
    // a preview of a replay neither ends nor pauses on escape
    assert_eq!(key_down(&GameplayRules { replay: true, preview: true, ..r }, PressedKey { escape: true, ..key() }, 0), (false, vec![]));
}

#[test]
fn play_completion() {
    let start = [CompletionStep::BeatmapEnded, CompletionStep::ShowCursor];
    assert_eq!(complete_play(true, PlayKind::Normal, true), [&start[..], &[CompletionStep::ShowFailMenu]].concat());
    assert_eq!(complete_play(true, PlayKind::Multiplayer, true), [&start[..], &[CompletionStep::Cleanup]].concat());
    assert_eq!(
        complete_play(false, PlayKind::Normal, true),
        [&start[..], &[CompletionStep::SaveAndSubmit, CompletionStep::ScoreMenu { submitted: true }, CompletionStep::Cleanup]].concat()
    );
    assert_eq!(
        complete_play(false, PlayKind::Normal, false),
        [&start[..], &[CompletionStep::ScoreMenu { submitted: false }, CompletionStep::Cleanup]].concat()
    );
    assert_eq!(
        complete_play(false, PlayKind::Replaying, false),
        [&start[..], &[CompletionStep::BeatmapSelect, CompletionStep::Cleanup]].concat()
    );
    assert_eq!(
        complete_play(false, PlayKind::Multiplayer, true),
        [&start[..], &[CompletionStep::SaveAndSubmit, CompletionStep::Cleanup]].concat()
    );
}

#[test]
fn failing_and_focus() {
    let mut r = rules();
    assert!(!GameplayRules { multi: true, ..r }.fail(false));
    assert!(!r.clone().fail(true));
    assert!(r.fail(false));
    assert!(r.failed);
    assert!(!r.fail(false));

    let mut r = rules();
    let mut pending = true;
    r.window_focus_changed(true, false, &mut pending);
    assert!(!pending && !r.should_pause);
    r.window_focus_changed(false, true, &mut pending);
    assert!(pending && !r.should_pause);
    pending = false;
    r.window_focus_changed(false, false, &mut pending);
    assert!(!pending && r.should_pause);
    let mut auto = GameplayRules { autoplay: true, ..rules() };
    auto.window_focus_changed(false, false, &mut pending);
    assert!(!auto.should_pause);
}

#[test]
fn judgments_and_combo() {
    let mut t = ScoreTally { judgments: vec![0, 0], combo: 19, max_combo: 19 };
    assert!(!t.add_judgment(1, AffectsCombo::Increment, false));
    assert_eq!((t.judgments.clone(), t.combo, t.max_combo), (vec![0, 1], 20, 20));
    assert!(!t.add_judgment(5, AffectsCombo::Ignore, false));
    assert_eq!(t.judgments, vec![0, 1]);
    assert!(t.add_judgment(0, AffectsCombo::Reset, false));
    assert_eq!((t.combo, t.max_combo), (0, 20));
    t.combo = 25;
    assert!(!t.add_judgment(0, AffectsCombo::Reset, true));
    assert_eq!(t.judgments, vec![2, 1]);

    let r = rules();
    assert!(judgment_fails(&r, false, true, false, false, false, false));
    assert!(!judgment_fails(&r, true, true, false, false, false, false));
    assert!(judgment_fails(&r, false, false, true, true, false, false));
    assert!(!judgment_fails(&r, false, false, false, true, true, false));
    assert!(judgment_fails(&r, false, false, false, false, true, true));
    assert!(!judgment_fails(&GameplayRules { preview: true, ..r }, false, true, false, false, false, false));
}

#[test]
fn all_scores_best_first_and_stable() {
    // list: 300, 500, 300, 100; the player's own: 300 (index 4)
    assert_eq!(all_scores(&vec![300, 500, 300, 100], 300), vec![1, 0, 2, 4, 3]);
    assert_eq!(all_scores(&vec![], 7), vec![0]);
    assert_eq!(all_scores(&vec![1, 2, 3], 10), vec![3, 2, 1, 0]);
    assert_eq!(all_scores(&vec![5, 5], 5), vec![0, 1, 2]);
}

#[test]
fn pause_check_follows_focus_and_controller() {
    let mut r = rules();
    let mut pending = false;
    assert!(!r.pause_check(None, true, false, &mut pending, false));
    assert!(r.pause_check(None, true, false, &mut pending, true));
    assert!(r.pause_check(Some(false), true, false, &mut pending, false));
    assert!(r.should_pause);

    let mut r = rules();
    assert!(!r.pause_check(Some(false), false, false, &mut pending, false));
    assert!(!r.should_pause);
    assert!(!r.pause_check(Some(false), true, true, &mut pending, false));
    assert!(pending);
    assert!(!r.pause_check(Some(true), true, true, &mut pending, false));
    assert!(!pending);

    let mut failed = GameplayRules { failed: true, should_pause: true, ..rules() };
    assert!(!failed.pause_check(None, true, false, &mut pending, true));
    let mut multi = GameplayRules { multi: true, ..rules() };
    assert!(!multi.pause_check(None, true, false, &mut pending, true));
}
