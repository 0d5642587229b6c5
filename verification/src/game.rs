use vstd::prelude::*;
use vstd::string::*;
use crate::notifications::{Notification, NotificationColor, NotificationView, OnClickView};
use crate::text::{same_text, decimal, push_decimal, signed_decimal, push_signed_decimal};
use crate::notifications::NotificationOnClick;
use crate::ui::{UiManager, Dialog, has_name};
use crate::values::{GlobalInfo, display_name_of};
use crate::online::OnlineEvent;
use crate::multiplayer::{MultiplayerData, LobbyView, update_lobby};

verus! {

/// Where "back" leads from a menu.
#[derive(Debug)]
pub enum PreviousMenu {
    /// the custom menu with this id
    CustomMenu(String),
    SpectatorMenu,
    /// no menu is known to lie before this one
    Unhandled,
}

/// Where "back" leads: the lobby while in multiplayer, the spectator menu while
/// spectating, else the beatmap select menu from the score menu and the main menu from
/// the beatmap select menu.
pub fn previous_menu(in_multi: bool, in_spec: bool, current_menu: &str) -> (p: PreviousMenu)
    ensures
        if in_multi {
            p matches PreviousMenu::CustomMenu(m) && m@ == "lobby_menu"@
        } else if in_spec {
            p is SpectatorMenu
        } else if current_menu@ == "score_menu"@ {
            p matches PreviousMenu::CustomMenu(m) && m@ == "beatmap_select"@
        } else if current_menu@ == "beatmap_select"@ {
            p matches PreviousMenu::CustomMenu(m) && m@ == "main_menu"@
        } else {
            p is Unhandled
        },
{
    if in_multi {
        PreviousMenu::CustomMenu(String::from_str("lobby_menu"))
    } else if in_spec {
        PreviousMenu::SpectatorMenu
    } else if same_text(current_menu, "score_menu") {
        PreviousMenu::CustomMenu(String::from_str("beatmap_select"))
    } else if same_text(current_menu, "beatmap_select") {
        PreviousMenu::CustomMenu(String::from_str("main_menu"))
    } else {
        PreviousMenu::Unhandled
    }
}

/// What a file dropped on the window is, by its extension.
#[derive(Clone, Copy, Debug, PartialEq, Eq, Structural)]
pub enum FileDropKind {
    /// a zipped beatmap set (osu, quaver or ptyping)
    BeatmapSet,
    /// a zipped osu skin
    Skin,
    /// a tataku or osu replay
    Replay,
    Unknown,
}

/// The kind of a file with the given extension.
pub open spec fn kind_of_extension(ext: Seq<char>) -> FileDropKind {
    if ext == "osz"@ || ext == "qp"@ || ext == "ptm"@ {
        FileDropKind::BeatmapSet
    } else if ext == "osk"@ {
        FileDropKind::Skin
    } else if ext == "ttkr"@ || ext == "osr"@ {
        FileDropKind::Replay
    } else {
        FileDropKind::Unknown
    }
}

/// The extension `std::path::Path::extension` finds in a path.
pub uninterp spec fn path_extension(path: Seq<char>) -> Option<Seq<char>>;

/// The extension of a path, through `std::path::Path::extension` (converted to a string
/// lossily, which keeps a path given as a string as it is). The contract says that the
/// result is what `path_extension` names for the path; what that is is not stated.
#[verifier::external_body]
fn extension_of(path: &str) -> (e: Option<String>)
    ensures
        match e {
            Some(e) => path_extension(path@) == Some(e@),
            None => path_extension(path@) is None,
        },
{
    std::path::Path::new(path).extension().map(|e| e.to_string_lossy().to_string())
}

/// What a file with this extension is.
pub fn extension_kind(e: &str) -> (k: FileDropKind)
    ensures
        k == kind_of_extension(e@),
{
    if same_text(e, "osz") || same_text(e, "qp") || same_text(e, "ptm") {
        FileDropKind::BeatmapSet
    } else if same_text(e, "osk") {
        FileDropKind::Skin
    } else if same_text(e, "ttkr") || same_text(e, "osr") {
        FileDropKind::Replay
    } else {
        FileDropKind::Unknown
    }
}

/// What a dropped file is; `None` when it has no extension (it is then ignored).
pub fn file_drop_kind(path: &str) -> (k: Option<FileDropKind>)
    ensures
        match path_extension(path@) {
            Some(e) => k == Some(kind_of_extension(e)),
            None => k is None,
        },
{
    match extension_of(path) {
        Some(e) => Some(extension_kind(e.as_str())),
        None => None,
    }
}

/// The notification for a dropped file the game does not know.
pub fn unknown_file_notification() -> (n: Notification)
    ensures
        n@ == (NotificationView {
            text: "What is this?"@,
            color: NotificationColor::Red,
            duration_ms: 3000,
            onclick: OnClickView::Nothing,
        }),
{
    Notification::new_text(String::from_str("What is this?"), NotificationColor::Red, 3000)
}

/// The notification for a skin added by dropping it on the window.
pub fn skin_added_notification(name: &str) -> (n: Notification)
    ensures
        n@ == (NotificationView {
            text: "Added skin "@ + name@,
            color: NotificationColor::Blue,
            duration_ms: 5000,
            onclick: OnClickView::Nothing,
        }),
{
    let mut text = String::from_str("Added skin ");
    text.append(name);
    Notification::new_text(text, NotificationColor::Blue, 5000)
}

/// The notification for a replay of a beatmap we do not have.
pub fn missing_map_notification() -> (n: Notification)
    ensures
        n@ == (NotificationView {
            text: "You don't have that map!"@,
            color: NotificationColor::Red,
            duration_ms: 5000,
            onclick: OnClickView::Nothing,
        }),
{
    Notification::new_text(String::from_str("You don't have that map!"), NotificationColor::Red, 5000)
}

/// A local date and time, as the clock shows it.
#[derive(Clone, Copy, Debug, PartialEq, Eq, Structural)]
pub struct LocalDateTime {
    pub year: i32,
    pub month: u32,
    pub day: u32,
    pub hour: u32,
    pub minute: u32,
    pub second: u32,
}

/// `"../Screenshots/{year}-{month}-{day}--{hour}-{minute}-{second}.png"`.
pub open spec fn screenshot_file(t: LocalDateTime) -> Seq<char> {
    "../Screenshots/"@ + signed_decimal(t.year as int) + "-"@ + decimal(t.month as nat) + "-"@
        + decimal(t.day as nat) + "--"@ + decimal(t.hour as nat) + "-"@ + decimal(t.minute as nat)
        + "-"@ + decimal(t.second as nat) + ".png"@
}

/// The file a screenshot taken at time `t` is saved to.
pub fn screenshot_file_name(t: &LocalDateTime) -> (s: String)
    ensures
        s@ == screenshot_file(*t),
{
    let mut s = String::from_str("../Screenshots/");
    push_signed_decimal(&mut s, t.year as i64);
    s.append("-");
    push_decimal(&mut s, t.month as u64);
    s.append("-");
    push_decimal(&mut s, t.day as u64);
    s.append("--");
    push_decimal(&mut s, t.hour as u64);
    s.append("-");
    push_decimal(&mut s, t.minute as u64);
    s.append("-");
    push_decimal(&mut s, t.second as u64);
    s.append(".png");
    s
}

/// The notification for a saved screenshot; clicking it opens the file.
pub fn screenshot_saved_notification(full_path: String) -> (n: Notification)
    ensures
        n@ == (NotificationView {
            text: "Screenshot saved to "@ + full_path@,
            color: NotificationColor::Blue,
            duration_ms: 5000,
            onclick: OnClickView::File(full_path@),
        }),
{
    let mut text = String::from_str("Screenshot saved to ");
    text.append(full_path.as_str());
    Notification::new(text, NotificationColor::Blue, 5000, NotificationOnClick::File(full_path))
}

/// The largest of some ids, if any.
pub open spec fn max_id(ids: Seq<u32>) -> Option<u32>
    decreases ids.len(),
{
    if ids.len() == 0 {
        None
    } else {
        match max_id(ids.drop_last()) {
            Some(m) => Some(if ids.last() > m { ids.last() } else { m }),
            None => Some(ids.last()),
        }
    }
}

/// The id for a new gameplay manager: one more than the largest id in use, or 0.
pub fn next_gameplay_id(ids: &Vec<u32>) -> (id: u32)
    requires
        forall|i: int| 0 <= i < ids@.len() ==> #[trigger] ids@[i] < u32::MAX,
    ensures
        id == match max_id(ids@) {
            Some(m) => (m + 1) as u32,
            None => 0,
        },
{
    let mut best: Option<u32> = None;
    for i in 0..ids.len()
        invariant
            best == max_id(ids@.take(i as int)),
            forall|j: int| 0 <= j < ids@.len() ==> #[trigger] ids@[j] < u32::MAX,
            best matches Some(b) ==> b < u32::MAX,
    {
        assert(ids@.take(i + 1).drop_last() =~= ids@.take(i as int));
        let x = ids[i];
        best = match best {
            Some(m) => Some(if x > m { x } else { m }),
            None => Some(x),
        };
    }
    assert(ids@.take(ids@.len() as int) =~= ids@);
    match best {
        Some(m) => m + 1,
        None => 0,
    }
}

/// Whether a task is started: difficulty calculation only when enabled.
pub fn should_add_task(enable_diffcalc: bool, task_id: &str) -> (b: bool)
    ensures
        b == (enable_diffcalc || task_id@ != "diff_calc"@),
{
    enable_diffcalc || !same_text(task_id, "diff_calc")
}

/// The lowercase form of a string, as `str::to_lowercase` gives it.
pub uninterp spec fn lowercase(s: Seq<char>) -> Seq<char>;

/// A string in lowercase, through `str::to_lowercase`. The contract says that the result
/// is what `lowercase` names for the string; what that is is not stated.
#[verifier::external_body]
fn to_lowercase(s: &str) -> (r: String)
    ensures
        r@ == lowercase(s@),
{
    s.to_lowercase()
}

/// The playmode actually played: the current beatmap's own mode when the chosen
/// gamemode cannot load it, else the chosen playmode.
pub open spec fn actual_playmode(playmode: Seq<char>, beatmap: Option<(bool, String)>) -> Seq<char> {
    match beatmap {
        Some((can_load, mode)) => if !can_load { mode@ } else { playmode },
        None => playmode,
    }
}

/// Switches to a playmode (an id in lowercase), unless no gamemode has that id. The
/// current beatmap, if any, is given with whether the chosen gamemode can load it and
/// the beatmap's own mode. Returns whether the playmode was valid.
pub fn set_playmode<M>(global: &mut GlobalInfo<M>, playmode: String, beatmap: Option<(bool, String)>) -> (valid: bool)
    ensures
        valid == display_name_of(old(global).gamemode_infos.by_num@, playmode@) is Some,
        !valid ==> *final(global) == *old(global),
        valid ==> {
            &&& final(global).playmode@ == playmode@
            &&& final(global).playmode_display@ == display_name_of(old(global).gamemode_infos.by_num@, playmode@)->0
            &&& final(global).playmode_actual@ == actual_playmode(playmode@, beatmap)
            &&& final(global).playmode_actual_display@ == match display_name_of(
                old(global).gamemode_infos.by_num@,
                actual_playmode(playmode@, beatmap),
            ) {
                Some(n) => n,
                None => old(global).playmode_actual_display@,
            }
            &&& final(global).gamemode_infos == old(global).gamemode_infos
        },
{
    if global.gamemode_infos.get_info(playmode.as_str()).is_none() {
        return false;
    }
    global.update_playmode(playmode.clone());
    let actual = match beatmap {
        Some((can_load, mode)) => if !can_load { mode } else { playmode },
        None => playmode,
    };
    global.update_playmode_actual(actual);
    true
}

/// Switches to a playmode, taken in lowercase (see [`set_playmode`]).
pub fn update_playmode<M>(global: &mut GlobalInfo<M>, playmode: &str, beatmap: Option<(bool, String)>) -> (valid: bool)
    ensures
        valid == display_name_of(old(global).gamemode_infos.by_num@, lowercase(playmode@)) is Some,
        !valid ==> *final(global) == *old(global),
        valid ==> {
            &&& final(global).playmode@ == lowercase(playmode@)
            &&& final(global).playmode_display@ == display_name_of(old(global).gamemode_infos.by_num@, lowercase(playmode@))->0
            &&& final(global).playmode_actual@ == actual_playmode(lowercase(playmode@), beatmap)
            &&& final(global).playmode_actual_display@ == match display_name_of(
                old(global).gamemode_infos.by_num@,
                actual_playmode(lowercase(playmode@), beatmap),
            ) {
                Some(n) => n,
                None => old(global).playmode_actual_display@,
            }
            &&& final(global).gamemode_infos == old(global).gamemode_infos
        },
{
    set_playmode(global, to_lowercase(playmode), beatmap)
}

/// What the game asks of the gameplay it holds.
#[derive(Debug)]
pub enum CurrentGameAction {
    Start,
    Resume,
    Restart,
    /// release the gameplay's resources
    Free,
    /// pause, showing the given menu
    Pause(String),
}

/// What comes of a gameplay action.
#[derive(Debug)]
pub enum CurrentGameStep<G> {
    /// there was no gameplay to act on
    NoGame,
    /// the gameplay was paused; show this menu
    ShowMenu(String),
    /// start this gameplay and make it current
    Start(G),
    /// make this gameplay current again
    Resume(G),
    /// reset this gameplay and make it current
    Restart(G),
    /// release this gameplay
    Free(G),
}

/// The gameplay being played, and the one set aside while a menu shows.
#[derive(Debug)]
pub struct GameplaySlots<G> {
    pub ingame: Option<G>,
    pub pending: Option<G>,
}

impl<G> GameplaySlots<G> {
    /// Pausing sets the current gameplay aside and shows a menu; every other action takes
    /// the gameplay set aside, which the caller starts, resumes, restarts or frees.
    pub fn handle_current_game_action(&mut self, action: CurrentGameAction) -> (step: CurrentGameStep<G>)
        ensures
            match action {
                CurrentGameAction::Pause(menu) => match old(self).ingame {
                    Some(g) => step == CurrentGameStep::<G>::ShowMenu(menu) && final(self).ingame is None
                        && final(self).pending == Some(g),
                    None => step is NoGame && *final(self) == *old(self),
                },
                _ => match old(self).pending {
                    Some(g) => {
                        &&& final(self).pending is None
                        &&& final(self).ingame == old(self).ingame
                        &&& step == match action {
                            CurrentGameAction::Start => CurrentGameStep::Start(g),
                            CurrentGameAction::Resume => CurrentGameStep::Resume(g),
                            CurrentGameAction::Restart => CurrentGameStep::Restart(g),
                            _ => CurrentGameStep::Free(g),
                        }
                    },
                    None => step is NoGame && *final(self) == *old(self),
                },
            },
    {
        match action {
            CurrentGameAction::Pause(menu) => {
                let mut current: Option<G> = None;
                std::mem::swap(&mut current, &mut self.ingame);
                match current {
                    Some(g) => {
                        self.pending = Some(g);
                        CurrentGameStep::ShowMenu(menu)
                    },
                    None => CurrentGameStep::NoGame,
                }
            },
            other => {
                let mut pending: Option<G> = None;
                std::mem::swap(&mut pending, &mut self.pending);
                match pending {
                    None => CurrentGameStep::NoGame,
                    Some(g) => match other {
                        CurrentGameAction::Start => CurrentGameStep::Start(g),
                        CurrentGameAction::Resume => CurrentGameStep::Resume(g),
                        CurrentGameAction::Restart => CurrentGameStep::Restart(g),
                        _ => CurrentGameStep::Free(g),
                    },
                }
            },
        }
    }
}

/// What to do when the beatmap asked for is not there.
#[derive(Clone, Copy, Debug, PartialEq, Eq, Structural)]
pub enum MapActionIfNone {
    /// keep the current beatmap
    ContinueCurrent,
    /// have no beatmap selected
    SetNone,
    /// pick a random beatmap (whether to start its song at the preview point)
    Random(bool),
}

/// The beatmap actions whose outcome depends on the game's state, with what the game knows
/// about that state.
#[derive(Clone, Copy, Debug, PartialEq, Eq, Structural)]
pub enum BeatmapChoice {
    /// the selected beatmap was confirmed: `in_lobby` tells whether we are in a multiplayer
    /// lobby, `is_host` whether we host it, `has_map` whether a beatmap is selected
    ConfirmSelected { in_lobby: bool, is_host: bool, has_map: bool },
    /// a beatmap was asked for by its hash: `known` tells whether it is known, `in_lobby`
    /// whether we are in a multiplayer lobby
    SetFromHash { known: bool, in_lobby: bool, restart_song: bool, use_preview_point: bool, if_none: MapActionIfNone },
    /// the previous beatmap was asked for: `found` tells whether there was one
    Previous { found: bool, if_none: MapActionIfNone },
}

/// One thing the game does for a beatmap action.
#[derive(Clone, Copy, Debug, PartialEq, Eq, Structural)]
pub enum BeatmapStep {
    /// go back to the lobby menu
    OpenLobbyMenu,
    /// tell the lobby which beatmap we host
    UpdateLobbyBeatmap,
    /// start playing the selected beatmap
    PlaySelected,
    /// select the beatmap asked for
    SelectRequested { restart_song: bool, use_preview: bool },
    /// select a random beatmap, if there is any
    SelectRandom { restart_song: bool, use_preview: bool },
    /// deselect the beatmap and remove the menu background
    Remove,
    /// deselect the beatmap, keeping the background
    Deselect,
}

/// The steps for a beatmap that was asked for and is not there.
pub open spec fn if_none_steps(if_none: MapActionIfNone, restart_song: bool, remove: BeatmapStep) -> Seq<BeatmapStep> {
    match if_none {
        MapActionIfNone::ContinueCurrent => Seq::empty(),
        MapActionIfNone::SetNone => seq![remove],
        MapActionIfNone::Random(p) => seq![BeatmapStep::SelectRandom { restart_song, use_preview: p }],
    }
}

/// The steps of a beatmap action.
pub open spec fn beatmap_steps(choice: BeatmapChoice) -> Seq<BeatmapStep> {
    match choice {
        BeatmapChoice::ConfirmSelected { in_lobby, is_host, has_map } =>
            if !in_lobby {
                seq![BeatmapStep::PlaySelected]
            } else if is_host && has_map {
                seq![BeatmapStep::OpenLobbyMenu, BeatmapStep::UpdateLobbyBeatmap]
            } else {
                seq![BeatmapStep::OpenLobbyMenu]
            },
        BeatmapChoice::SetFromHash { known, in_lobby, restart_song, use_preview_point, if_none } =>
            if known {
                seq![BeatmapStep::SelectRequested { restart_song, use_preview: use_preview_point }]
            } else if in_lobby {
                seq![BeatmapStep::Remove]
            } else {
                if_none_steps(if_none, restart_song, BeatmapStep::Remove)
            },
        BeatmapChoice::Previous { found, if_none } =>
            if found { Seq::empty() } else { if_none_steps(if_none, true, BeatmapStep::Deselect) },
    }
}

/// The steps for a beatmap that is not there.
fn steps_if_none(if_none: MapActionIfNone, restart_song: bool, remove: BeatmapStep, steps: &mut Vec<BeatmapStep>)
    ensures
        final(steps)@ == old(steps)@ + if_none_steps(if_none, restart_song, remove),
{
    match if_none {
        MapActionIfNone::ContinueCurrent => {},
        MapActionIfNone::SetNone => steps.push(remove),
        MapActionIfNone::Random(p) => steps.push(BeatmapStep::SelectRandom { restart_song, use_preview: p }),
    }
    assert(steps@ =~= old(steps)@ + if_none_steps(if_none, restart_song, remove));
}

/// Decides what a beatmap action does. Confirming a beatmap plays it, except in a lobby,
/// where the game goes back to the lobby menu and the host also tells the lobby its new
/// beatmap. A beatmap asked for by hash is selected when known; otherwise a lobby drops its
/// beatmap, and elsewhere `if_none` decides. When there is no previous beatmap, `if_none`
/// decides too (a random pick then restarts the song).
pub fn plan_beatmap_action(choice: BeatmapChoice) -> (steps: Vec<BeatmapStep>)
    ensures
        steps@ == beatmap_steps(choice),
{
    let mut steps: Vec<BeatmapStep> = Vec::new();
    match choice {
        BeatmapChoice::ConfirmSelected { in_lobby, is_host, has_map } => {
            if in_lobby {
                steps.push(BeatmapStep::OpenLobbyMenu);
                if is_host && has_map {
                    steps.push(BeatmapStep::UpdateLobbyBeatmap);
                }
            } else {
                steps.push(BeatmapStep::PlaySelected);
            }
        },
        BeatmapChoice::SetFromHash { known, in_lobby, restart_song, use_preview_point, if_none } => {
            if known {
                steps.push(BeatmapStep::SelectRequested { restart_song, use_preview: use_preview_point });
            } else if in_lobby {
                steps.push(BeatmapStep::Remove);
            } else {
                steps_if_none(if_none, restart_song, BeatmapStep::Remove, &mut steps);
            }
        },
        BeatmapChoice::Previous { found, if_none } => {
            if !found {
                steps_if_none(if_none, true, BeatmapStep::Deselect, &mut steps);
            }
        },
    }
    assert(steps@ =~= beatmap_steps(choice));
    steps
}

/// Whether the last beatmap of a dropped beatmap set becomes the selected one: only while a
/// menu shows (`current_menu` is its name), keeping the song going, and starting the new
/// song at its preview point except on the main menu.
pub fn dropped_beatmap_step(current_menu: Option<&str>) -> (step: Option<BeatmapStep>)
    ensures
        match current_menu {
            Some(menu) => step == Some(BeatmapStep::SelectRequested {
                restart_song: false,
                use_preview: menu@ != "main_menu"@,
            }),
            None => step is None,
        },
{
    match current_menu {
        Some(menu) => Some(BeatmapStep::SelectRequested {
            restart_song: false,
            use_preview: !same_text(menu, "main_menu"),
        }),
        None => None,
    }
}

/// How long the game waits before connecting again after losing the server, in ms.
pub const ONLINE_RETRY_MS: u64 = 10_000;

/// What the game does after an online event, besides updating its own values.
#[derive(Debug)]
pub enum OnlineEventStep {
    Notify(Notification),
    /// connect to the server again after this many ms
    RestartOnlineAfter(u64),
    /// a user started watching our play
    SpectatorJoined { user_id: u32, username: String },
    /// a user stopped watching our play
    SpectatorLeft { user_id: u32 },
}

/// The text of the notification for a lobby invite.
pub open spec fn invite_text(inviter: Seq<char>) -> Seq<char> {
    inviter + " has invited you to a multiplayer match"@
}

/// Handles an event of the online connection. A login records who we are. Losing the
/// connection logs us out (keeping the username) if we were logged in, and retries in ten
/// seconds. An invite makes the lobby joinable without its password and tells the player,
/// who can click the notification to join. Spectators coming and going are passed on.
pub fn handle_online_event<M>(global: &mut GlobalInfo<M>, lobbies: &mut MultiplayerData, event: OnlineEvent) -> (steps: Vec<OnlineEventStep>)
    ensures
        final(global).mods == old(global).mods,
        final(global).lobbies == old(global).lobbies,
        final(global).gamemode_infos == old(global).gamemode_infos,
        final(global).playmode == old(global).playmode,
        final(global).playmode_display == old(global).playmode_display,
        final(global).playmode_actual == old(global).playmode_actual,
        final(global).playmode_actual_display == old(global).playmode_actual_display,
        final(global).menu_list == old(global).menu_list,
        final(global).new_beatmap_hash == old(global).new_beatmap_hash,
        final(lobbies).lobby_creation_pending == old(lobbies).lobby_creation_pending,
        final(lobbies).lobby_join_pending == old(lobbies).lobby_join_pending,
        match event {
            OnlineEvent::LoggedIn { user_id, username } => {
                &&& final(global).logged_in
                &&& final(global).user_id == user_id
                &&& final(global).username == username
                &&& final(lobbies).lobbies_view() == old(lobbies).lobbies_view()
                &&& steps@.len() == 0
            },
            OnlineEvent::Disconnected => {
                &&& final(global).username == old(global).username
                &&& if old(global).user_id > 0 {
                        !final(global).logged_in && final(global).user_id == 0
                    } else {
                        final(global).logged_in == old(global).logged_in && final(global).user_id == old(global).user_id
                    }
                &&& final(lobbies).lobbies_view() == old(lobbies).lobbies_view()
                &&& steps@.len() == 1
                &&& steps@[0] matches OnlineEventStep::RestartOnlineAfter(d) && d == ONLINE_RETRY_MS
            },
            OnlineEvent::SpectatorJoined { user_id, username } => {
                &&& *final(global) == *old(global)
                &&& final(lobbies).lobbies_view() == old(lobbies).lobbies_view()
                &&& steps@.len() == 1
                &&& steps@[0] matches OnlineEventStep::SpectatorJoined { user_id: u, username: n } && u == user_id && n == username
            },
            OnlineEvent::SpectatorLeft { user_id } => {
                &&& *final(global) == *old(global)
                &&& final(lobbies).lobbies_view() == old(lobbies).lobbies_view()
                &&& steps@.len() == 1
                &&& steps@[0] matches OnlineEventStep::SpectatorLeft { user_id: u } && u == user_id
            },
            OnlineEvent::LobbyInvite { inviter_id, inviter_username, lobby } => {
                &&& *final(global) == *old(global)
                &&& final(lobbies).lobbies_view() == update_lobby(
                        old(lobbies).lobbies_view(),
                        lobby.id,
                        |l: LobbyView| LobbyView { has_password: false, ..l },
                    )
                &&& steps@.len() == 1
                &&& steps@[0] matches OnlineEventStep::Notify(n) && n@ == (NotificationView {
                        text: invite_text(inviter_username@),
                        color: NotificationColor::PurpleAmethyst,
                        duration_ms: 10_000,
                        onclick: OnClickView::MultiplayerLobby(lobby.id),
                    })
            },
        },
{
    let mut steps: Vec<OnlineEventStep> = Vec::new();
    match event {
        OnlineEvent::LoggedIn { user_id, username } => {
            global.logged_in = true;
            global.user_id = user_id;
            global.username = username;
        },
        OnlineEvent::Disconnected => {
            if global.user_id > 0 {
                global.logged_in = false;
                global.user_id = 0;
            }
            steps.push(OnlineEventStep::RestartOnlineAfter(ONLINE_RETRY_MS));
        },
        OnlineEvent::SpectatorJoined { user_id, username } => {
            steps.push(OnlineEventStep::SpectatorJoined { user_id, username });
        },
        OnlineEvent::SpectatorLeft { user_id } => {
            steps.push(OnlineEventStep::SpectatorLeft { user_id });
        },
        OnlineEvent::LobbyInvite { inviter_id, inviter_username, lobby } => {
            lobbies.clear_password(lobby.id);
            let mut text = inviter_username;
            text.append(" has invited you to a multiplayer match");
            steps.push(OnlineEventStep::Notify(Notification::new(
                text,
                NotificationColor::PurpleAmethyst,
                10_000,
                NotificationOnClick::MultiplayerLobby(lobby.id),
            )));
        },
    }
    steps
}

/// The dialogs without those whose widget has the given name.
pub open spec fn without_named<T>(dialogs: Seq<Dialog<T>>, name: Seq<char>) -> Seq<Dialog<T>> {
    dialogs.filter(|d: Dialog<T>| d.name@ != name)
}

/// Removes every dialog whose widget has the given name.
fn remove_named<T, M>(ui: &mut UiManager<T, M>, name: &str)
    requires
        old(ui).wf(),
    ensures
        final(ui).wf(),
        final(ui).dialogs@ == without_named(old(ui).dialogs@, name@),
        final(ui).dialog_counter == old(ui).dialog_counter,
        final(ui).messages == old(ui).messages,
        final(ui).current_menu == old(ui).current_menu,
        final(ui).root_tree == old(ui).root_tree,
{
    let mut dialogs: Vec<Dialog<T>> = Vec::new();
    std::mem::swap(&mut dialogs, &mut ui.dialogs);
    let ghost all = dialogs@;
    let ghost keep = |d: Dialog<T>| d.name@ != name@;
    let mut kept: Vec<Dialog<T>> = Vec::new();
    assert(all.take(0).filter(keep) =~= Seq::<Dialog<T>>::empty()) by {
        reveal(Seq::filter);
    }
    for d in it: dialogs
        invariant
            it.seq() == all,
            all == old(ui).dialogs@,
            keep == (|d: Dialog<T>| d.name@ != name@),
            kept@ == all.take(it.index() as int).filter(keep),
            ui.dialogs@ == Seq::<Dialog<T>>::empty(),
            ui.dialog_counter == old(ui).dialog_counter,
            ui.messages == old(ui).messages,
            ui.current_menu == old(ui).current_menu,
            ui.root_tree == old(ui).root_tree,
    {
        let ghost i = it.index();
        proof { reveal(Seq::filter); }
        assert(all.take(i + 1).drop_last() =~= all.take(i as int));
        if !same_text(d.name.as_str(), name) {
            kept.push(d);
        }
    }
    assert(all.take(all.len() as int) =~= all);
    ui.dialogs = kept;
    proof {
        let nums = crate::ui::dialog_nums(all);
        let new_nums = crate::ui::dialog_nums(ui.dialogs@);
        lemma_filter_subsequence(all, keep);
        assert forall|a: int, b: int| 0 <= a < b < new_nums.len() implies new_nums[a] != new_nums[b] by {
            let (oa, ob) = choose|oa: int, ob: int| 0 <= oa < ob < all.len()
                && all[oa] == ui.dialogs@[a] && all[ob] == ui.dialogs@[b];
            assert(nums[oa] != nums[ob]);
        }
        assert forall|a: int| 0 <= a < new_nums.len() implies new_nums[a] < ui.dialog_counter by {
            let k = choose|k: int| 0 <= k < all.len() && all[k] == ui.dialogs@[a];
            assert(nums[k] < ui.dialog_counter);
        }
    }
}

/// Every element of a filtered sequence comes from the sequence, in order.
proof fn lemma_filter_subsequence<A>(s: Seq<A>, keep: spec_fn(A) -> bool)
    ensures
        forall|a: int| 0 <= a < s.filter(keep).len() ==> exists|k: int| 0 <= k < s.len() && s[k] == #[trigger] s.filter(keep)[a],
        forall|a: int, b: int| 0 <= a < b < s.filter(keep).len() ==> exists|oa: int, ob: int|
            0 <= oa < ob < s.len() && s[oa] == #[trigger] s.filter(keep)[a] && s[ob] == #[trigger] s.filter(keep)[b],
    decreases s.len(),
{
    reveal(Seq::filter);
    if s.len() > 0 {
        let rest = s.drop_last();
        lemma_filter_subsequence(rest, keep);
        let f = s.filter(keep);
        let fr = rest.filter(keep);
        assert forall|a: int| 0 <= a < f.len() implies exists|k: int| 0 <= k < s.len() && s[k] == #[trigger] f[a] by {
            if a < fr.len() {
                let k = choose|k: int| 0 <= k < rest.len() && rest[k] == #[trigger] fr[a];
                assert(s[k] == f[a]);
            } else {
                assert(f[a] == s.last());
                assert(s[s.len() - 1] == f[a]);
            }
        }
        assert forall|a: int, b: int| 0 <= a < b < f.len() implies exists|oa: int, ob: int|
            0 <= oa < ob < s.len() && s[oa] == #[trigger] f[a] && s[ob] == #[trigger] f[b] by {
            if b < fr.len() {
                let (oa, ob) = choose|oa: int, ob: int| 0 <= oa < ob < rest.len() && rest[oa] == #[trigger] fr[a]
                    && rest[ob] == #[trigger] fr[b];
                assert(s[oa] == f[a] && s[ob] == f[b]);
            } else {
                let k = choose|k: int| 0 <= k < rest.len() && rest[k] == #[trigger] fr[a];
                assert(s[k] == f[a]);
                assert(s[s.len() - 1] == f[b]);
            }
        }
    }
}

/// Opens the user panel, closing any chat window, or closes the user panel when it is
/// open. Returns whether the panel was opened.
pub fn toggle_user_panel<T, M>(ui: &mut UiManager<T, M>, panel: T) -> (opened: bool)
    requires
        old(ui).wf(),
        old(ui).dialog_counter < usize::MAX,
    ensures
        final(ui).wf(),
        opened == !has_name(old(ui).dialogs@, "user_panel"@),
        opened ==> {
            &&& final(ui).dialogs@ == without_named(old(ui).dialogs@, "chat"@).push(
                Dialog { num: old(ui).dialog_counter, name: final(ui).dialogs@.last().name, tree: panel },
            )
            &&& final(ui).dialogs@.last().name@ == "user_panel"@
            &&& final(ui).dialog_counter == old(ui).dialog_counter + 1
        },
        !opened ==> {
            &&& final(ui).dialogs@ == without_named(old(ui).dialogs@, "user_panel"@)
            &&& final(ui).dialog_counter == old(ui).dialog_counter
        },
{
    let name = String::from_str("user_panel");
    if !ui.has_dialog_named(&name) {
        remove_named(ui, "chat");
        proof {
            let before = old(ui).dialogs@;
            let after = ui.dialogs@;
            lemma_filter_subsequence(before, |d: Dialog<T>| d.name@ != "chat"@);
            if has_name(after, "user_panel"@) {
                let i = choose|i: int| 0 <= i < after.len() && #[trigger] after[i].name@ == "user_panel"@;
                let k = choose|k: int| 0 <= k < before.len() && before[k] == #[trigger] after[i];
                assert(before[k].name@ == "user_panel"@);
            }
        }
        let num = ui.add_dialog(name, true, panel);
        true
    } else {
        remove_named(ui, "user_panel");
        false
    }
}


/// The largest id is at least every id, and is one of them.
proof fn lemma_max_id(ids: Seq<u32>)
    ensures
        match max_id(ids) {
            Some(m) => (forall|i: int| 0 <= i < ids.len() ==> #[trigger] ids[i] <= m) && ids.contains(m),
            None => ids.len() == 0,
        },
    decreases ids.len(),
{
    if ids.len() > 0 {
        lemma_max_id(ids.drop_last());
        match max_id(ids.drop_last()) {
            Some(m) => {
                assert forall|i: int| 0 <= i < ids.len() implies #[trigger] ids[i] <= max_id(ids)->0 by {
                    if i < ids.len() - 1 {
                        assert(ids[i] == ids.drop_last()[i]);
                    }
                }
                if ids.last() > m {
                    assert(ids[ids.len() - 1] == ids.last());
                } else {
                    let k = choose|k: int| 0 <= k < ids.drop_last().len() && ids.drop_last()[k] == m;
                    assert(ids[k] == m);
                }
            },
            None => {
                assert(ids[ids.len() - 1] == ids.last());
            },
        }
    }
}

/// A new gameplay id is not in use: it is above every id in use.
pub proof fn law_next_gameplay_id_fresh(ids: Seq<u32>)
    requires
        forall|i: int| 0 <= i < ids.len() ==> #[trigger] ids[i] < u32::MAX,
    ensures
        forall|i: int| 0 <= i < ids.len() ==> #[trigger] ids[i] < match max_id(ids) {
            Some(m) => m + 1,
            None => 0,
        },
{
    lemma_max_id(ids);
}

} // verus!
