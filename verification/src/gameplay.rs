use vstd::prelude::*;

verus! {

/// What the rules of a play depend on: the kind of play (multiplayer, replay, preview,
/// and whether that kind ignores the player's input or sends spectator frames), the mods
/// (autoplay), and the play's own state.
#[derive(Clone, Copy, Debug, PartialEq, Eq, Structural)]
pub struct GameplayRules {
    pub multi: bool,
    pub replay: bool,
    pub preview: bool,
    /// the kind of play ignores the player's input
    pub mode_skips_input: bool,
    /// the kind of play sends spectator frames
    pub sends_spec_frames: bool,
    pub autoplay: bool,
    pub failed: bool,
    /// a pause was asked for
    pub should_pause: bool,
    /// the in-game interface was edited
    pub ui_changed: bool,
    /// the game mode shows the cursor
    pub show_cursor: bool,
}

/// Whether the play may pause: never in multiplayer; otherwise when a pause was asked for,
/// or when the player plays it (no autoplay, no replay) and has not failed.
pub open spec fn may_pause(r: GameplayRules) -> bool {
    !r.multi && (r.should_pause || !(r.autoplay || r.replay || r.failed))
}

/// Whether the player's own frames are recorded: not under autoplay or in a replay.
pub open spec fn records_frames(r: GameplayRules) -> bool {
    !(r.autoplay || r.replay)
}

/// Whether the player's input is ignored: never in multiplayer (a failed player plays on);
/// otherwise after failing, or when the kind of play ignores input.
pub open spec fn skips_input(r: GameplayRules) -> bool {
    !r.multi && (r.failed || r.mode_skips_input)
}

impl GameplayRules {
    /// Whether the play may pause now.
    pub fn can_pause(&self) -> (b: bool)
        ensures
            b == may_pause(*self),
    {
        if self.multi {
            return false;
        }
        self.should_pause || !(self.autoplay || self.replay || self.failed)
    }

    /// Whether the cursor is hidden: shown in previews, replays and under autoplay, and
    /// otherwise as the game mode wants.
    pub fn should_hide_cursor(&self) -> (b: bool)
        ensures
            b == !(self.preview || self.replay || self.autoplay || self.show_cursor),
    {
        if self.preview || self.replay || self.autoplay {
            false
        } else {
            !self.show_cursor
        }
    }

    /// Whether the score is saved: not for replays, autoplay, or a play whose interface
    /// was edited.
    pub fn should_save_score(&self) -> (b: bool)
        ensures
            b == !(self.replay || self.autoplay || self.ui_changed),
    {
        !(self.replay || self.autoplay || self.ui_changed)
    }

    /// Whether the player's input is ignored.
    pub fn should_skip_input(&self) -> (b: bool)
        ensures
            b == skips_input(*self),
    {
        if self.multi {
            return false;
        }
        self.failed || self.mode_skips_input
    }
}

/// What comes of a replay frame.
#[derive(Clone, Copy, Debug, PartialEq, Eq, Structural)]
pub enum FrameStep {
    /// ask the lobby to skip the intro
    SendSkipRequest,
    /// skip the intro
    SkipIntro,
    /// the frame is dropped
    Ignore,
    /// the game mode handles the frame; `record` tells whether it is added to the replay,
    /// `send` whether it also goes to the spectators
    Apply { record: bool, send: bool },
}

/// What comes of a frame: a skip-intro press skips (through the lobby in multiplayer);
/// another frame is applied when forced (it comes from the game mode) or when the player's
/// frames are recorded, and recorded (and sent to spectators, if this kind of play sends
/// them) when the player's frames are recorded and `should_add` is set.
pub open spec fn frame_outcome(r: GameplayRules, skip_intro: bool, force: bool, should_add: bool) -> FrameStep {
    if skip_intro {
        if r.multi { FrameStep::SendSkipRequest } else { FrameStep::SkipIntro }
    } else if force || records_frames(r) {
        let record = records_frames(r) && should_add;
        FrameStep::Apply { record, send: record && r.sends_spec_frames }
    } else {
        FrameStep::Ignore
    }
}

/// Decides what a replay frame does.
pub fn frame_step(rules: &GameplayRules, skip_intro: bool, force: bool, should_add: bool) -> (step: FrameStep)
    ensures
        step == frame_outcome(*rules, skip_intro, force, should_add),
{
    if skip_intro {
        return if rules.multi { FrameStep::SendSkipRequest } else { FrameStep::SkipIntro };
    }
    let add_frames = !(rules.autoplay || rules.replay);
    if force || add_frames {
        let record = add_frames && should_add;
        FrameStep::Apply { record, send: record && rules.sends_spec_frames }
    } else {
        FrameStep::Ignore
    }
}

/// A key press during play, by what the key is bound to.
#[derive(Clone, Copy, Debug, PartialEq, Eq, Structural)]
pub struct PressedKey {
    /// the press repeats a held key
    pub repeat: bool,
    pub escape: bool,
    pub space: bool,
    pub restart: bool,
    pub offset_up: bool,
    pub offset_down: bool,
    pub shift: bool,
}

/// How long a second escape press may come after the first to leave a lobby, in ms.
pub const LOBBY_ESCAPE_MS: u64 = 3000;

/// By how much (in ms) the offset keys move an offset.
pub const OFFSET_STEP_MS: i32 = 5;

/// One thing a key press does.
#[derive(Clone, Copy, Debug, PartialEq, Eq, Structural)]
pub enum KeyDownStep {
    /// stop the replay or autoplay: it is complete
    EndPlay,
    /// start holding the restart key
    HoldRestart,
    /// end a failed play now
    EndFailed,
    /// pause
    Pause,
    /// leave multiplayer (the escape timer restarts)
    ExitMultiplayer,
    /// tell the player to press escape again to leave the lobby (the escape timer restarts)
    WarnExit,
    /// move the global offset by this many ms
    GlobalOffset(i32),
    /// move this beatmap's offset by this many ms
    Offset(i32),
    /// handle a skip-intro frame
    SkipIntro(FrameStep),
}

/// The offset step of a key (0 when it is no offset key; down wins over up).
pub open spec fn offset_delta(k: PressedKey) -> i32 {
    if k.offset_down { -5i32 } else if k.offset_up { 5i32 } else { 0i32 }
}

/// What a key press does, given the rules and the time since escape was last pressed in a
/// lobby: whether it was handled, and its steps.
pub open spec fn key_down_outcome(r: GameplayRules, k: PressedKey, ms_since_escape: u64) -> (bool, Seq<KeyDownStep>) {
    if k.repeat {
        (false, Seq::empty())
    } else if (r.replay || r.autoplay) && !r.preview && k.escape {
        (true, seq![KeyDownStep::EndPlay])
    } else if k.restart && !r.multi {
        (true, seq![KeyDownStep::HoldRestart])
    } else {
        let ended: Seq<KeyDownStep> = if r.failed && k.escape && !r.multi { seq![KeyDownStep::EndFailed] } else { Seq::empty() };
        if skips_input(r) {
            (false, ended)
        } else if k.escape && !may_pause(r) && r.multi {
            (true, ended + seq![if ms_since_escape < LOBBY_ESCAPE_MS { KeyDownStep::ExitMultiplayer } else { KeyDownStep::WarnExit }])
        } else {
            let paused = ended + if k.escape && may_pause(r) { seq![KeyDownStep::Pause] } else { Seq::empty() };
            if k.shift && offset_delta(k) != 0 {
                (true, paused + seq![KeyDownStep::GlobalOffset(offset_delta(k))])
            } else if !k.shift && k.offset_up {
                (true, paused + seq![KeyDownStep::Offset(5)])
            } else if !k.shift && k.offset_down {
                (true, paused + seq![KeyDownStep::Offset(-5i32)])
            } else if k.space {
                (true, paused + seq![KeyDownStep::SkipIntro(frame_outcome(r, true, false, true))])
            } else {
                (false, paused)
            }
        }
    }
}

/// Decides what a key press during play does. Replays and autoplay end on escape; the
/// restart key starts its hold outside multiplayer; escape ends a failed play; then, unless
/// input is ignored, escape pauses when the play may pause, and in a lobby a second escape
/// within three seconds leaves multiplayer; the offset keys move the offset (the global one
/// with shift), and space skips the intro.
pub fn key_down(rules: &GameplayRules, key: PressedKey, ms_since_escape: u64) -> (r: (bool, Vec<KeyDownStep>))
    ensures
        r.0 == key_down_outcome(*rules, key, ms_since_escape).0,
        r.1@ == key_down_outcome(*rules, key, ms_since_escape).1,
{
    let ghost outcome = key_down_outcome(*rules, key, ms_since_escape);
    let mut steps: Vec<KeyDownStep> = Vec::new();
    if key.repeat {
        return (false, steps);
    }
    if (rules.replay || rules.autoplay) && !rules.preview && key.escape {
        steps.push(KeyDownStep::EndPlay);
        return (true, steps);
    }
    if key.restart && !rules.multi {
        steps.push(KeyDownStep::HoldRestart);
        return (true, steps);
    }
    if rules.failed && key.escape && !rules.multi {
        steps.push(KeyDownStep::EndFailed);
    }
    let ghost ended = steps@;
    if rules.should_skip_input() {
        return (false, steps);
    }
    if key.escape {
        if rules.can_pause() {
            steps.push(KeyDownStep::Pause);
        } else if rules.multi {
            if ms_since_escape < LOBBY_ESCAPE_MS {
                steps.push(KeyDownStep::ExitMultiplayer);
            } else {
                steps.push(KeyDownStep::WarnExit);
            }
            return (true, steps);
        }
    }
    let ghost paused = steps@;
    assert(paused =~= ended + if key.escape && may_pause(*rules) { seq![KeyDownStep::Pause] } else { Seq::<KeyDownStep>::empty() });
    if key.shift {
        let mut t: i32 = 0;
        if key.offset_up {
            t = OFFSET_STEP_MS;
        }
        if key.offset_down {
            t = -OFFSET_STEP_MS;
        }
        if t != 0 {
            steps.push(KeyDownStep::GlobalOffset(t));
            return (true, steps);
        }
    } else {
        if key.offset_up {
            steps.push(KeyDownStep::Offset(OFFSET_STEP_MS));
            return (true, steps);
        }
        if key.offset_down {
            steps.push(KeyDownStep::Offset(-OFFSET_STEP_MS));
            return (true, steps);
        }
    }
    if key.space {
        let f = frame_step(rules, true, false, true);
        steps.push(KeyDownStep::SkipIntro(f));
        return (true, steps);
    }
    (false, steps)
}

/// The offset keys, pressed alone (no repeat, escape or restart) while the play takes
/// input: the up key moves an offset up by 5 ms and the down key down by 5 ms, the
/// beatmap's offset without shift and the global offset, by the same amount, with shift.
pub proof fn law_offset_keys(r: GameplayRules, k: PressedKey, ms_since_escape: u64)
    requires
        !k.repeat,
        !k.escape,
        !k.restart,
        !skips_input(r),
        k.offset_up != k.offset_down,
    ensures
        key_down_outcome(r, PressedKey { shift: false, ..k }, ms_since_escape)
            == (true, seq![KeyDownStep::Offset(if k.offset_up { 5i32 } else { -5i32 })]),
        key_down_outcome(r, PressedKey { shift: true, ..k }, ms_since_escape)
            == (true, seq![KeyDownStep::GlobalOffset(if k.offset_up { 5i32 } else { -5i32 })]),
{
    let ended: Seq<KeyDownStep> = if r.failed && k.escape && !r.multi { seq![KeyDownStep::EndFailed] } else { Seq::empty() };
    assert(ended =~= Seq::<KeyDownStep>::empty());
    let paused = ended + if k.escape && may_pause(r) { seq![KeyDownStep::Pause] } else { Seq::<KeyDownStep>::empty() };
    assert(paused =~= Seq::<KeyDownStep>::empty());
    assert(paused + seq![KeyDownStep::Offset(if k.offset_up { 5i32 } else { -5i32 })]
        =~= seq![KeyDownStep::Offset(if k.offset_up { 5i32 } else { -5i32 })]);
    assert(paused + seq![KeyDownStep::GlobalOffset(if k.offset_up { 5i32 } else { -5i32 })]
        =~= seq![KeyDownStep::GlobalOffset(if k.offset_up { 5i32 } else { -5i32 })]);
}

/// How a finished play was played, for what follows it.
#[derive(Clone, Copy, Debug, PartialEq, Eq, Structural)]
pub enum PlayKind {
    /// any play but the two below
    Normal,
    Multiplayer,
    /// watching a replay
    Replaying,
}

/// One thing the game does when a play ends.
#[derive(Clone, Copy, Debug, PartialEq, Eq, Structural)]
pub enum CompletionStep {
    /// tell the integrations that the beatmap ended
    BeatmapEnded,
    /// show the cursor again
    ShowCursor,
    /// keep the failed play aside and show the fail menu
    ShowFailMenu,
    /// save the score and its replay, and start uploading the score
    SaveAndSubmit,
    /// go back to beatmap select
    BeatmapSelect,
    /// show the score menu, with the upload's progress when the score is submitted
    ScoreMenu { submitted: bool },
    /// free the play's textures
    Cleanup,
}

/// What follows the end of a play: the integrations hear of it and the cursor shows; a
/// failed play outside multiplayer goes to the fail menu (and is kept for a retry); a
/// passed play is saved and submitted when its score may be saved, then a replay goes back
/// to beatmap select and a normal play shows its score (a lobby moves on by itself).
pub open spec fn completion_steps(failed: bool, kind: PlayKind, save_score: bool) -> Seq<CompletionStep> {
    let start = seq![CompletionStep::BeatmapEnded, CompletionStep::ShowCursor];
    if failed {
        if kind != PlayKind::Multiplayer {
            start + seq![CompletionStep::ShowFailMenu]
        } else {
            start + seq![CompletionStep::Cleanup]
        }
    } else {
        let saved = if save_score { seq![CompletionStep::SaveAndSubmit] } else { Seq::empty() };
        let next = match kind {
            PlayKind::Replaying => seq![CompletionStep::BeatmapSelect],
            PlayKind::Multiplayer => Seq::empty(),
            PlayKind::Normal => seq![CompletionStep::ScoreMenu { submitted: save_score }],
        };
        start + saved + next + seq![CompletionStep::Cleanup]
    }
}

/// Decides what follows the end of a play.
pub fn complete_play(failed: bool, kind: PlayKind, save_score: bool) -> (steps: Vec<CompletionStep>)
    ensures
        steps@ == completion_steps(failed, kind, save_score),
{
    let mut steps: Vec<CompletionStep> = Vec::new();
    steps.push(CompletionStep::BeatmapEnded);
    steps.push(CompletionStep::ShowCursor);
    if failed {
        if kind != PlayKind::Multiplayer {
            steps.push(CompletionStep::ShowFailMenu);
            assert(steps@ =~= completion_steps(failed, kind, save_score));
            return steps;
        }
    } else {
        if save_score {
            steps.push(CompletionStep::SaveAndSubmit);
        }
        match kind {
            PlayKind::Replaying => steps.push(CompletionStep::BeatmapSelect),
            PlayKind::Multiplayer => {},
            PlayKind::Normal => steps.push(CompletionStep::ScoreMenu { submitted: save_score }),
        }
    }
    steps.push(CompletionStep::Cleanup);
    assert(steps@ =~= completion_steps(failed, kind, save_score));
    steps
}


/// Whether the play may fail now: not when it already failed, under no-fail or autoplay,
/// in a preview, or in multiplayer (where a failed player plays on).
pub open spec fn may_fail(r: GameplayRules, nofail: bool) -> bool {
    !(r.failed || nofail || r.autoplay || r.preview || r.multi)
}

/// The rules and the pause waiting for a break's end, once the window gained or lost
/// focus: see [`GameplayRules::window_focus_changed`].
pub open spec fn focus_change(r: GameplayRules, pending: bool, got_focus: bool, in_break: bool) -> (GameplayRules, bool) {
    if got_focus {
        (r, false)
    } else if may_pause(r) {
        if in_break {
            (r, true)
        } else {
            (GameplayRules { should_pause: true, ..r }, pending)
        }
    } else {
        (r, pending)
    }
}

impl GameplayRules {
    /// Fails the play, when it may fail (`nofail` tells whether the no-fail mod is on).
    /// Returns whether it failed now; the caller then records the time it failed at.
    pub fn fail(&mut self, nofail: bool) -> (failed_now: bool)
        ensures
            failed_now == may_fail(*old(self), nofail),
            *final(self) == (if failed_now { GameplayRules { failed: true, ..*old(self) } } else { *old(self) }),
    {
        if self.failed || nofail || self.autoplay || self.preview || self.multi {
            return false;
        }
        self.failed = true;
        true
    }

    /// The window gained or lost focus. Gaining it drops a pause waiting for the end of a
    /// break; losing it pauses when the play may pause, at once or (during a break) once
    /// the break ends.
    pub fn window_focus_changed(&mut self, got_focus: bool, in_break: bool, pause_pending: &mut bool)
        ensures
            got_focus ==> !*final(pause_pending) && *final(self) == *old(self),
            !got_focus && may_pause(*old(self)) && in_break ==> *final(pause_pending) && *final(self) == *old(self),
            !got_focus && may_pause(*old(self)) && !in_break ==> *final(pause_pending) == *old(pause_pending)
                && *final(self) == (GameplayRules { should_pause: true, ..*old(self) }),
            !got_focus && !may_pause(*old(self)) ==> *final(pause_pending) == *old(pause_pending) && *final(self) == *old(self),
    {
        if got_focus {
            *pause_pending = false;
        } else if self.can_pause() {
            if in_break {
                *pause_pending = true;
            } else {
                self.should_pause = true;
            }
        }
    }
}

impl GameplayRules {
    /// The start of a frame of the play: a change of window focus is passed on when the
    /// settings pause on focus loss; then the play pauses when it has not failed, may
    /// pause, and a pause was asked for, by the play or by the controller's start button.
    /// Returns whether it pauses now.
    pub fn pause_check(
        &mut self,
        focus: Option<bool>,
        pause_on_focus_lost: bool,
        in_break: bool,
        pause_pending: &mut bool,
        controller_pause: bool,
    ) -> (pause: bool)
        ensures
            (*final(self), *final(pause_pending)) == (match focus {
                Some(got_focus) => if pause_on_focus_lost {
                    focus_change(*old(self), *old(pause_pending), got_focus, in_break)
                } else {
                    (*old(self), *old(pause_pending))
                },
                None => (*old(self), *old(pause_pending)),
            }),
            pause == (!final(self).failed && may_pause(*final(self)) && (final(self).should_pause || controller_pause)),
    {
        if let Some(got_focus) = focus {
            if pause_on_focus_lost {
                self.window_focus_changed(got_focus, in_break, pause_pending);
            }
        }
        !self.failed && self.can_pause() && (self.should_pause || controller_pause)
    }
}

/// How a judgment changes the combo.
#[derive(Clone, Copy, Debug, PartialEq, Eq, Structural)]
pub enum AffectsCombo {
    Increment,
    Reset,
    Ignore,
}

/// The counts of a play: how often each judgment was given, the combo and the best combo.
#[derive(Debug)]
pub struct ScoreTally {
    pub judgments: Vec<u32>,
    pub combo: u32,
    pub max_combo: u32,
}

/// The combo at which breaking it plays the combo-break sound.
pub const COMBO_BREAK_SOUND_AT: u32 = 20;

impl ScoreTally {
    /// Counts a judgment (when `id` is a known judgment), then moves the combo: up by one
    /// (raising the best combo with it), back to 0, or not at all. Returns whether the
    /// combo-break sound plays: a combo of at least 20 broken, outside a preview.
    pub fn add_judgment(&mut self, id: usize, affects: AffectsCombo, preview: bool) -> (combo_break_sound: bool)
        requires
            id < old(self).judgments@.len() ==> old(self).judgments@[id as int] < u32::MAX,
            affects == AffectsCombo::Increment ==> old(self).combo < u32::MAX,
        ensures
            final(self).judgments@ == if id < old(self).judgments@.len() {
                old(self).judgments@.update(id as int, (old(self).judgments@[id as int] + 1) as u32)
            } else {
                old(self).judgments@
            },
            match affects {
                AffectsCombo::Increment => {
                    &&& final(self).combo == old(self).combo + 1
                    &&& final(self).max_combo == if old(self).combo + 1 > old(self).max_combo {
                            (old(self).combo + 1) as u32
                        } else {
                            old(self).max_combo
                        }
                    &&& !combo_break_sound
                },
                AffectsCombo::Reset => {
                    &&& final(self).combo == 0
                    &&& final(self).max_combo == old(self).max_combo
                    &&& combo_break_sound == (old(self).combo >= COMBO_BREAK_SOUND_AT && !preview)
                },
                AffectsCombo::Ignore => {
                    &&& final(self).combo == old(self).combo
                    &&& final(self).max_combo == old(self).max_combo
                    &&& !combo_break_sound
                },
            },
    {
        if id < self.judgments.len() {
            let c = self.judgments[id];
            self.judgments.set(id, c + 1);
        }
        match affects {
            AffectsCombo::Increment => {
                self.combo = self.combo + 1;
                if self.combo > self.max_combo {
                    self.max_combo = self.combo;
                }
                false
            },
            AffectsCombo::Reset => {
                let sound = self.combo >= COMBO_BREAK_SOUND_AT && !preview;
                self.combo = 0;
                sound
            },
            AffectsCombo::Ignore => false,
        }
    }
}

/// Whether a judgment makes the play fail: health ran out, or it breaks an active sudden
/// death or perfect mod (when the play may fail at all).
pub fn judgment_fails(rules: &GameplayRules, nofail: bool, dead: bool, sudden_death: bool, breaks_sudden_death: bool, perfect: bool, breaks_perfect: bool) -> (b: bool)
    ensures
        b == (may_fail(*rules, nofail) && (dead || (sudden_death && breaks_sudden_death) || (perfect && breaks_perfect))),
{
    let trigger = dead || (sudden_death && breaks_sudden_death) || (perfect && breaks_perfect);
    trigger && !(rules.failed || nofail || rules.autoplay || rules.preview || rules.multi)
}


/// The points of every score on the board: those of the list, then the player's own.
pub open spec fn board_points(list: Seq<u64>, current: u64) -> Seq<u64> {
    list.push(current)
}

/// Whether the score at `a` is listed before the score at `b`: it has more points, or as
/// many and came first.
pub open spec fn ranks_before(points: Seq<u64>, a: int, b: int) -> bool {
    points[a] > points[b] || (points[a] == points[b] && a < b)
}

/// The points of the score at `idx` on the board.
fn point_at(list: &Vec<u64>, current: u64, idx: usize) -> (p: u64)
    requires
        idx <= list@.len(),
    ensures
        p == board_points(list@, current)[idx as int],
{
    if idx < list.len() {
        list[idx]
    } else {
        current
    }
}

/// Every score of the play, best first: the scores of the list (given by their points,
/// at their index) and the player's own (at index `list.len()`). Scores with as many
/// points keep their order, the player's own last among them.
pub fn all_scores(list: &Vec<u64>, current: u64) -> (order: Vec<usize>)
    requires
        list@.len() < usize::MAX,
    ensures
        order@.len() == list@.len() + 1,
        forall|k: int| 0 <= k < order@.len() ==> order@[k] <= list@.len(),
        forall|j: usize| j <= list@.len() ==> #[trigger] order@.contains(j),
        forall|j: int, k: int|
            0 <= j < k < order@.len() ==> ranks_before(board_points(list@, current), #[trigger] order@[j] as int, #[trigger] order@[k] as int),
{
    let ghost ps = board_points(list@, current);
    let n: usize = list.len();
    let mut order: Vec<usize> = Vec::new();
    let mut i: usize = 0;
    while i < n + 1
        invariant
            n == list@.len(),
            n < usize::MAX,
            ps == board_points(list@, current),
            i <= n + 1,
            order@.len() == i,
            forall|k: int| 0 <= k < order@.len() ==> order@[k] < i,
            forall|j: usize| j < i ==> #[trigger] order@.contains(j),
            forall|j: int, k: int|
                0 <= j < k < order@.len() ==> ranks_before(ps, #[trigger] order@[j] as int, #[trigger] order@[k] as int),
        decreases n + 1 - i,
    {
        let p = point_at(list, current, i);
        let mut pos: usize = 0;
        while pos < order.len() && point_at(list, current, order[pos]) >= p
            invariant
                n == list@.len(),
                ps == board_points(list@, current),
                i <= n,
                p == ps[i as int],
                pos <= order@.len(),
                forall|k: int| 0 <= k < order@.len() ==> order@[k] < i,
                forall|k: int| 0 <= k < pos ==> ps[#[trigger] order@[k] as int] >= p,
            decreases order@.len() - pos,
        {
            pos += 1;
        }
        let ghost before = order@;
        proof {
            assert forall|k: int| pos <= k < before.len() implies ps[#[trigger] before[k] as int] < p by {
                if k > pos {
                    assert(ranks_before(ps, before[pos as int] as int, before[k] as int));
                }
            }
        }
        order.insert(pos, i);
        proof {
            assert forall|j: usize| j < i + 1 implies #[trigger] order@.contains(j) by {
                if j == i {
                    assert(order@[pos as int] == j);
                } else {
                    assert(before.contains(j));
                    let w = choose|w: int| 0 <= w < before.len() && before[w] == j;
                    if w < pos {
                        assert(order@[w] == j);
                    } else {
                        assert(order@[w + 1] == j);
                    }
                }
            }
            assert forall|j: int, k: int| 0 <= j < k < order@.len() implies ranks_before(ps, #[trigger] order@[j] as int, #[trigger] order@[k] as int) by {
                if k < pos {
                    assert(order@[j] == before[j] && order@[k] == before[k]);
                } else if k == pos {
                    assert(order@[j] == before[j]);
                } else if j < pos {
                    assert(order@[j] == before[j] && order@[k] == before[k - 1]);
                    assert(ranks_before(ps, before[j] as int, before[k - 1] as int));
                } else if j == pos {
                    assert(order@[k] == before[k - 1]);
                } else {
                    assert(order@[j] == before[j - 1] && order@[k] == before[k - 1]);
                    assert(ranks_before(ps, before[j - 1] as int, before[k - 1] as int));
                }
            }
        }
        i += 1;
    }
    order
}

} // verus!
