use vstd::prelude::*;
use vstd::string::*;
use crate::notifications::{Notification, NotificationColor, NotificationView, OnClickView};
use crate::multiplayer::MultiplayerAction;
use crate::song::{AudioState, SongInfo};

verus! {

/// A key of the keyboard, as far as the game's own bindings name it; any other key goes
/// by its code.
#[derive(Clone, Copy, Debug, PartialEq, Eq, Structural)]
pub enum GameKey {
    F5,
    F12,
    O,
    PageUp,
    M,
    H,
    T,
    R,
    Grave,
    Escape,
    Key1,
    Key2,
    Key3,
    Key4,
    Other(u32),
}

/// The modifier keys held.
#[derive(Clone, Copy, Debug, PartialEq, Eq, Structural)]
pub struct KeyMods {
    pub ctrl: bool,
    pub shift: bool,
    pub alt: bool,
}

/// What the game's own key bindings ask for in a frame.
#[derive(Clone, Copy, Debug, PartialEq, Eq, Structural)]
pub enum HotkeyStep {
    /// the user panel's key: open or close the user panel
    ToggleUserPanel,
    /// F12: take a screenshot, and upload it when shift is held
    TakeScreenshot { upload: bool },
    /// Ctrl+O: open the settings
    OpenSettings,
    /// Ctrl+Shift+M: create a lobby (see [`hotkey_lobby`])
    CreateLobby,
    /// the grave key: open the console
    OpenConsole,
    /// Escape: close the newest dialog; when one closed, Escape is taken from the keys
    CloseLatestDialog,
    /// Ctrl+F5: tell the player and refresh every beatmap (see [`full_refresh_notification`])
    FullRefresh,
    /// keys 1 to 4: switch to the playmode with this number
    SetPlaymode(usize),
    /// Ctrl+R: reload the custom menus
    ReloadCustomMenus,
}

/// The keys without `k`.
pub open spec fn without_key(keys: Seq<GameKey>, k: GameKey) -> Seq<GameKey>
    decreases keys.len(),
{
    if keys.len() == 0 {
        Seq::empty()
    } else {
        without_key(keys.drop_last(), k) + if keys.last() == k { Seq::empty() } else { seq![keys.last()] }
    }
}

/// Whether `k` is down and its binding applies (`when`).
pub open spec fn bound(keys: Seq<GameKey>, k: GameKey, when: bool) -> bool {
    when && keys.contains(k)
}

/// The keys once the binding of `k` (when it applies) took it.
pub open spec fn after_binding(keys: Seq<GameKey>, k: GameKey, when: bool) -> Seq<GameKey> {
    if bound(keys, k, when) {
        without_key(keys, k)
    } else {
        keys
    }
}

/// `step` when `b` holds, else nothing.
pub open spec fn step_if(b: bool, step: HotkeyStep) -> Seq<HotkeyStep> {
    if b {
        seq![step]
    } else {
        Seq::empty()
    }
}

/// The keys left after each binding in turn: the user panel's key, F12, Ctrl+O,
/// Ctrl+PageUp, Ctrl+Shift+M, Ctrl+Shift+H, Ctrl+Shift+T, the grave key, Ctrl+F5 and
/// Ctrl+R each take their key when they apply. (Ctrl+PageUp and Ctrl+Shift+H/T only
/// print debugging output.)
pub open spec fn keys_after(keys: Seq<GameKey>, mods: KeyMods, panel_key: GameKey, stage: nat) -> Seq<GameKey>
    decreases stage,
{
    if stage == 0 {
        keys
    } else {
        let prev = keys_after(keys, mods, panel_key, (stage - 1) as nat);
        let cs = mods.ctrl && mods.shift;
        if stage == 1 {
            after_binding(prev, panel_key, true)
        } else if stage == 2 {
            after_binding(prev, GameKey::F12, true)
        } else if stage == 3 {
            after_binding(prev, GameKey::O, mods.ctrl)
        } else if stage == 4 {
            after_binding(prev, GameKey::PageUp, mods.ctrl)
        } else if stage == 5 {
            after_binding(prev, GameKey::M, cs)
        } else if stage == 6 {
            after_binding(prev, GameKey::H, cs)
        } else if stage == 7 {
            after_binding(prev, GameKey::T, cs)
        } else if stage == 8 {
            after_binding(prev, GameKey::Grave, true)
        } else if stage == 9 {
            after_binding(prev, GameKey::F5, mods.ctrl)
        } else {
            after_binding(prev, GameKey::R, mods.ctrl)
        }
    }
}

/// The number key for playmode `i` (0 to 3).
pub open spec fn number_key(i: int) -> GameKey {
    if i == 0 {
        GameKey::Key1
    } else if i == 1 {
        GameKey::Key2
    } else if i == 2 {
        GameKey::Key3
    } else {
        GameKey::Key4
    }
}

/// The playmode switches of keys 1 to 4, in order, for the playmodes that exist.
pub open spec fn playmode_steps(keys: Seq<GameKey>, playmodes: nat, upto: int) -> Seq<HotkeyStep>
    decreases upto,
{
    if upto <= 0 {
        Seq::empty()
    } else {
        playmode_steps(keys, playmodes, upto - 1) + step_if(
            keys.contains(number_key(upto - 1)) && upto - 1 < playmodes,
            HotkeyStep::SetPlaymode((upto - 1) as usize),
        )
    }
}

/// What the bindings up to the grave key ask for, in order. Settings open from a play
/// only when the settings allow it.
pub open spec fn head_steps(
    keys: Seq<GameKey>,
    mods: KeyMods,
    panel_key: GameKey,
    ingame: bool,
    allow_ingame_settings: bool,
) -> Seq<HotkeyStep> {
    step_if(bound(keys, panel_key, true), HotkeyStep::ToggleUserPanel)
        + step_if(bound(keys_after(keys, mods, panel_key, 1), GameKey::F12, true), HotkeyStep::TakeScreenshot { upload: mods.shift })
        + step_if(
            bound(keys_after(keys, mods, panel_key, 2), GameKey::O, mods.ctrl) && (!ingame || allow_ingame_settings),
            HotkeyStep::OpenSettings,
        )
        + step_if(bound(keys_after(keys, mods, panel_key, 4), GameKey::M, mods.ctrl && mods.shift), HotkeyStep::CreateLobby)
        + step_if(bound(keys_after(keys, mods, panel_key, 7), GameKey::Grave, true), HotkeyStep::OpenConsole)
}

/// What the later bindings ask for, in order, on the keys the earlier ones left: Escape
/// and keys 1 to 4 keep their key.
pub open spec fn tail_steps(keys: Seq<GameKey>, mods: KeyMods, playmodes: nat) -> Seq<HotkeyStep> {
    let after_f5 = after_binding(keys, GameKey::F5, mods.ctrl);
    step_if(keys.contains(GameKey::Escape), HotkeyStep::CloseLatestDialog)
        + step_if(bound(keys, GameKey::F5, mods.ctrl), HotkeyStep::FullRefresh)
        + playmode_steps(after_f5, playmodes, 4)
        + step_if(bound(after_f5, GameKey::R, mods.ctrl), HotkeyStep::ReloadCustomMenus)
}

/// What the bindings ask for, in the order they are checked.
pub open spec fn hotkey_steps(
    keys: Seq<GameKey>,
    mods: KeyMods,
    panel_key: GameKey,
    ingame: bool,
    allow_ingame_settings: bool,
    playmodes: nat,
) -> Seq<HotkeyStep> {
    head_steps(keys, mods, panel_key, ingame, allow_ingame_settings)
        + tail_steps(keys_after(keys, mods, panel_key, 8), mods, playmodes)
}

/// The number key for playmode `i`.
fn number_key_at(i: usize) -> (k: GameKey)
    requires
        i < 4,
    ensures
        k == number_key(i as int),
{
    if i == 0 {
        GameKey::Key1
    } else if i == 1 {
        GameKey::Key2
    } else if i == 2 {
        GameKey::Key3
    } else {
        GameKey::Key4
    }
}

/// Whether `k` is among the keys.
fn has_key(keys: &Vec<GameKey>, k: GameKey) -> (b: bool)
    ensures
        b == keys@.contains(k),
{
    let mut i: usize = 0;
    while i < keys.len()
        invariant
            i <= keys@.len(),
            forall|j: int| 0 <= j < i ==> keys@[j] != k,
        decreases keys@.len() - i,
    {
        if keys[i] == k {
            return true;
        }
        i += 1;
    }
    false
}

/// Takes `k` from the keys; says whether it was there.
fn take_key(keys: &mut Vec<GameKey>, k: GameKey) -> (had: bool)
    ensures
        had == old(keys)@.contains(k),
        final(keys)@ == without_key(old(keys)@, k),
{
    let had = has_key(keys, k);
    let ghost all = keys@;
    let mut rest: Vec<GameKey> = Vec::new();
    let mut i: usize = 0;
    assert(all.take(0) =~= Seq::<GameKey>::empty());
    while i < keys.len()
        invariant
            keys@ == all,
            i <= all.len(),
            rest@ == without_key(all.take(i as int), k),
        decreases all.len() - i,
    {
        assert(all.take(i + 1).drop_last() =~= all.take(i as int));
        if keys[i] != k {
            rest.push(keys[i]);
        }
        i += 1;
    }
    assert(all.take(all.len() as int) =~= all);
    *keys = rest;
    had
}

/// Applies the binding of `k` when `when` holds: takes `k` and says whether it was down.
fn binding(keys: &mut Vec<GameKey>, k: GameKey, when: bool) -> (hit: bool)
    ensures
        hit == bound(old(keys)@, k, when),
        final(keys)@ == after_binding(old(keys)@, k, when),
{
    if when {
        let had = take_key(keys, k);
        proof {
            if !had {
                lemma_without_absent(old(keys)@, k);
            }
        }
        had
    } else {
        false
    }
}

/// Taking a key that is not down changes nothing.
proof fn lemma_without_absent(keys: Seq<GameKey>, k: GameKey)
    requires
        !keys.contains(k),
    ensures
        without_key(keys, k) == keys,
    decreases keys.len(),
{
    if keys.len() > 0 {
        assert(!keys.drop_last().contains(k)) by {
            if keys.drop_last().contains(k) {
                let w = choose|w: int| 0 <= w < keys.drop_last().len() && keys.drop_last()[w] == k;
                assert(keys[w] == k);
            }
        }
        lemma_without_absent(keys.drop_last(), k);
        assert(keys.last() != k) by {
            assert(keys[keys.len() - 1] == keys.last());
        }
        assert(keys.drop_last().push(keys.last()) =~= keys);
        assert(keys.drop_last() + seq![keys.last()] =~= keys);
    }
}

/// The bindings up to the grave key.
fn head_hotkeys(
    keys: &mut Vec<GameKey>,
    mods: KeyMods,
    panel_key: GameKey,
    ingame: bool,
    allow_ingame_settings: bool,
) -> (steps: Vec<HotkeyStep>)
    ensures
        final(keys)@ == keys_after(old(keys)@, mods, panel_key, 8),
        steps@ == head_steps(old(keys)@, mods, panel_key, ingame, allow_ingame_settings),
{
    let ghost start = keys@;
    let cs = mods.ctrl && mods.shift;
    let mut steps: Vec<HotkeyStep> = Vec::new();
    assert(keys_after(start, mods, panel_key, 0) == start);
    if binding(keys, panel_key, true) {
        steps.push(HotkeyStep::ToggleUserPanel);
    }
    assert(keys@ == keys_after(start, mods, panel_key, 1));
    if binding(keys, GameKey::F12, true) {
        steps.push(HotkeyStep::TakeScreenshot { upload: mods.shift });
    }
    assert(keys@ == keys_after(start, mods, panel_key, 2));
    if binding(keys, GameKey::O, mods.ctrl) {
        if !ingame || allow_ingame_settings {
            steps.push(HotkeyStep::OpenSettings);
        }
    }
    assert(keys@ == keys_after(start, mods, panel_key, 3));
    binding(keys, GameKey::PageUp, mods.ctrl);
    assert(keys@ == keys_after(start, mods, panel_key, 4));
    if binding(keys, GameKey::M, cs) {
        steps.push(HotkeyStep::CreateLobby);
    }
    assert(keys@ == keys_after(start, mods, panel_key, 5));
    binding(keys, GameKey::H, cs);
    assert(keys@ == keys_after(start, mods, panel_key, 6));
    binding(keys, GameKey::T, cs);
    assert(keys@ == keys_after(start, mods, panel_key, 7));
    if binding(keys, GameKey::Grave, true) {
        steps.push(HotkeyStep::OpenConsole);
    }
    assert(keys@ == keys_after(start, mods, panel_key, 8));
    assert(steps@ =~= head_steps(start, mods, panel_key, ingame, allow_ingame_settings));
    steps
}

/// The bindings from Escape on.
fn tail_hotkeys(keys: &mut Vec<GameKey>, mods: KeyMods, playmodes: usize) -> (steps: Vec<HotkeyStep>)
    ensures
        final(keys)@ == after_binding(after_binding(old(keys)@, GameKey::F5, mods.ctrl), GameKey::R, mods.ctrl),
        steps@ == tail_steps(old(keys)@, mods, playmodes as nat),
{
    let ghost start = keys@;
    let mut steps: Vec<HotkeyStep> = Vec::new();
    if has_key(keys, GameKey::Escape) {
        steps.push(HotkeyStep::CloseLatestDialog);
    }
    if binding(keys, GameKey::F5, mods.ctrl) {
        steps.push(HotkeyStep::FullRefresh);
    }
    let ghost after_f5 = keys@;
    let ghost before_modes = steps@;
    assert(playmode_steps(after_f5, playmodes as nat, 0) =~= Seq::<HotkeyStep>::empty());
    assert(steps@ =~= before_modes + playmode_steps(after_f5, playmodes as nat, 0));
    let mut i: usize = 0;
    while i < 4
        invariant
            i <= 4,
            keys@ == after_f5,
            steps@ == before_modes + playmode_steps(after_f5, playmodes as nat, i as int),
        decreases 4 - i,
    {
        if has_key(keys, number_key_at(i)) && i < playmodes {
            steps.push(HotkeyStep::SetPlaymode(i));
        }
        assert(steps@ =~= before_modes + playmode_steps(after_f5, playmodes as nat, i + 1));
        i += 1;
    }
    if binding(keys, GameKey::R, mods.ctrl) {
        steps.push(HotkeyStep::ReloadCustomMenus);
    }
    assert(steps@ =~= tail_steps(start, mods, playmodes as nat));
    steps
}

/// The game's own key bindings, checked in a fixed order on the keys pressed this frame
/// (after the volume control had its turn). Each binding that applies takes its key, but
/// for Escape (taken only once a dialog closed) and keys 1 to 4; `playmodes` is how many
/// playmodes are known by number.
pub fn global_hotkeys(
    keys: &mut Vec<GameKey>,
    mods: KeyMods,
    panel_key: GameKey,
    ingame: bool,
    allow_ingame_settings: bool,
    playmodes: usize,
) -> (steps: Vec<HotkeyStep>)
    ensures
        final(keys)@ == keys_after(old(keys)@, mods, panel_key, 10),
        steps@ == hotkey_steps(old(keys)@, mods, panel_key, ingame, allow_ingame_settings, playmodes as nat),
{
    let ghost start = keys@;
    let mut steps = head_hotkeys(keys, mods, panel_key, ingame, allow_ingame_settings);
    let mut tail = tail_hotkeys(keys, mods, playmodes);
    steps.append(&mut tail);
    assert(keys_after(start, mods, panel_key, 9) == after_binding(keys_after(start, mods, panel_key, 8), GameKey::F5, mods.ctrl));
    steps
}

/// The lobby that Ctrl+Shift+M creates: named "a", without password, public, for five
/// players.
pub fn hotkey_lobby<A>() -> (a: MultiplayerAction<A>)
    ensures
        a matches MultiplayerAction::CreateLobby { name, password, private, players }
            && name@ == "a"@ && password@ == ""@ && !private && players == 5,
{
    proof {
        reveal_strlit("");
    }
    MultiplayerAction::CreateLobby { name: String::from_str("a"), password: String::new(), private: false, players: 5 }
}

/// The notification shown before a full refresh of the beatmaps.
pub fn full_refresh_notification() -> (n: Notification)
    ensures
        n@ == (NotificationView {
            text: "Doing a full refresh, the game will freeze for a bit"@,
            color: NotificationColor::Red,
            duration_ms: 5000,
            onclick: OnClickView::Nothing,
        }),
{
    Notification::new_text(String::from_str("Doing a full refresh, the game will freeze for a bit"), NotificationColor::Red, 5000)
}

/// The notification shown when a number key switched the playmode.
pub fn playmode_set_notification(mode: &str) -> (n: Notification)
    ensures
        n@ == (NotificationView {
            text: "Playmode set to "@ + mode@,
            color: NotificationColor::Cyan,
            duration_ms: 3000,
            onclick: OnClickView::Nothing,
        }),
{
    let mut text = String::from_str("Playmode set to ");
    text.append(mode);
    Notification::new_text(text, NotificationColor::Cyan, 3000)
}


/// What a change of the current song's state tells the rest of the game.
#[derive(Clone, Copy, Debug, PartialEq, Eq, Structural)]
pub enum SongEvent {
    SongStart,
    SongPause,
    SongEnd,
}

/// The event for a song that went into `state`: playing starts it, pausing pauses it, and
/// stopping (or a state the engine does not know) ends it.
pub open spec fn song_event_for(state: AudioState) -> SongEvent {
    match state {
        AudioState::Playing => SongEvent::SongStart,
        AudioState::Paused => SongEvent::SongPause,
        _ => SongEvent::SongEnd,
    }
}

/// Whether the flags of the song's values agree with its state.
pub open spec fn flags_follow_state<V>(info: SongInfo<V>) -> bool {
    &&& info.paused == (info.state == AudioState::Paused)
    &&& info.playing == (info.state == AudioState::Playing)
    &&& info.stopped == (info.state == AudioState::Stopped)
    &&& info.exists == (info.state != AudioState::Unknown)
}

/// Follows the current song's state as the audio engine reports it (`None`: there is no
/// song). A new state is recorded and told as an event; without a song the state becomes
/// unknown, and nothing is told.
pub fn follow_song_state<V>(info: &mut SongInfo<V>, audio: Option<AudioState>) -> (event: Option<SongEvent>)
    ensures
        final(info).position == old(info).position,
        final(info).state == (match audio { Some(st) => st, None => AudioState::Unknown }),
        final(info).state == old(info).state ==> *final(info) == *old(info),
        final(info).state != old(info).state ==> flags_follow_state(*final(info)),
        event == (match audio {
            Some(st) => if st != old(info).state { Some(song_event_for(st)) } else { None },
            None => None,
        }),
{
    match audio {
        Some(st) => {
            if info.set_state(st) {
                match info.state {
                    AudioState::Stopped | AudioState::Unknown => Some(SongEvent::SongEnd),
                    AudioState::Playing => Some(SongEvent::SongStart),
                    AudioState::Paused => Some(SongEvent::SongPause),
                }
            } else {
                None
            }
        },
        None => {
            info.set_state(AudioState::Unknown);
            None
        },
    }
}


/// What a state of the game is, as far as switching between states goes.
#[derive(Clone, Copy, Debug, PartialEq, Eq, Structural)]
pub enum StateKind {
    /// no state yet
    Empty,
    Closing,
    /// a play; whether it already started
    Ingame { started: bool },
    /// a menu to switch to; whether the menu's name is exactly `pause` (the pause and fail
    /// menus name themselves `pause_menu` and `fail_menu`, so they do not count)
    SetMenu { named_pause: bool },
    InMenu,
    TransitionStarting,
    TransitionEnding,
}

/// What the server is told the player does.
#[derive(Clone, Copy, Debug, PartialEq, Eq, Structural)]
pub enum OnlineStatus {
    /// watching someone else's play
    Spectating,
    Playing,
    Idle,
}

/// What the game does with the state queued for it, at the end of a frame.
#[derive(Clone, Copy, Debug, PartialEq, Eq, Structural)]
pub enum QueuedStateStep {
    /// nothing is queued: go on as before
    Stay,
    /// save the settings, become `Closing`, close the window and tell the server
    Close,
    /// close every dialog; for a play, pause the song (`rewind_song`: and put it back to
    /// its start), then start the play; tell the server (`online`, when it is told); then
    /// go from the current state into the queued one through a transition, or else swap
    /// the two at once
    Switch { start_play: bool, rewind_song: bool, online: Option<OnlineStatus>, transition: bool },
}

/// What is done with the queued state, given the current one and whether a spectator
/// session runs: see [`QueuedStateStep`]. There is no transition out of no state or out of
/// a menu named `pause`.
pub open spec fn queued_state_step(queued: StateKind, current: StateKind, spectating: bool) -> QueuedStateStep {
    match queued {
        StateKind::Empty => QueuedStateStep::Stay,
        StateKind::Closing => QueuedStateStep::Close,
        _ => QueuedStateStep::Switch {
            start_play: queued is Ingame,
            rewind_song: queued matches StateKind::Ingame { started } && !started,
            online: match queued {
                StateKind::Ingame { .. } => Some(if spectating { OnlineStatus::Spectating } else { OnlineStatus::Playing }),
                StateKind::SetMenu { .. } => Some(OnlineStatus::Idle),
                _ => None,
            },
            transition: !(current is Empty || current == StateKind::SetMenu { named_pause: true }),
        },
    }
}

/// Decides what is done with the queued state at the end of a frame.
pub fn plan_queued_state(queued: StateKind, current: StateKind, spectating: bool) -> (step: QueuedStateStep)
    ensures
        step == queued_state_step(queued, current, spectating),
{
    match queued {
        StateKind::Empty => QueuedStateStep::Stay,
        StateKind::Closing => QueuedStateStep::Close,
        _ => {
            let (start_play, rewind_song, online) = match queued {
                StateKind::Ingame { started } => {
                    let status = if spectating { OnlineStatus::Spectating } else { OnlineStatus::Playing };
                    (true, !started, Some(status))
                },
                StateKind::SetMenu { .. } => (false, false, Some(OnlineStatus::Idle)),
                _ => (false, false, None),
            };
            let transition = match current {
                StateKind::Empty => false,
                StateKind::SetMenu { named_pause } => !named_pause,
                _ => true,
            };
            QueuedStateStep::Switch { start_play, rewind_song, online, transition }
        },
    }
}

} // verus!
