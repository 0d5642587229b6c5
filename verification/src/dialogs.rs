use vstd::prelude::*;
use vstd::string::*;
use crate::chat::{ChatChannel, ChannelView, spec_from_name};
use crate::notifications::{Notification, NotificationColor, NotificationView, OnClickView, error_text};
use crate::tasks::LoadingStatus;
use crate::text::{same_text, split_text, split_on, string_views, decimal, push_decimal};

verus! {

/// What a widget message carries.
#[derive(Debug)]
pub enum MessageValue {
    Click,
    Text(String),
    Toggle(bool),
    Number(usize),
}

/// A player's answer to a yes/no question.
#[derive(Clone, Copy, Debug, PartialEq, Eq, Structural)]
pub enum YesNoResult {
    Yes,
    No,
    Cancel,
}

/// What menus and dialogs ask of the game.
#[derive(Debug)]
pub enum GameAction {
    /// close the dialog that asked
    CloseDialog,
    DeleteBeatmap(u128),
    /// put a beatmap hash on the clipboard
    CopyHash(u128),
    CreateLobby { name: String, password: String, private: bool, players: u8 },
    JoinLobby { lobby_id: u32, password: String },
    ChangeLobbyHost(u32),
    KickSlot(u8),
    Restart,
    Resume,
    /// free the current game
    FreeGame,
    SetMenu(String),
    ToggleMod(String),
    RemoveMod(String),
    /// select the next beatmap
    BeatmapNext,
    Spectate(u32),
    OpenChat(String),
    AddRemoveFriend(u32),
    InviteUser(u32),
    /// start the beatmap loading task
    LoadBeatmaps,
}

/// The mathematical value of a [`GameAction`].
pub enum ActionView {
    CloseDialog,
    DeleteBeatmap(u128),
    CopyHash(u128),
    CreateLobby { name: Seq<char>, password: Seq<char>, private: bool, players: u8 },
    JoinLobby { lobby_id: u32, password: Seq<char> },
    ChangeLobbyHost(u32),
    KickSlot(u8),
    Restart,
    Resume,
    FreeGame,
    SetMenu(Seq<char>),
    ToggleMod(Seq<char>),
    RemoveMod(Seq<char>),
    BeatmapNext,
    Spectate(u32),
    OpenChat(Seq<char>),
    AddRemoveFriend(u32),
    InviteUser(u32),
    LoadBeatmaps,
}

impl View for GameAction {
    type V = ActionView;

    open spec fn view(&self) -> ActionView {
        match self {
            GameAction::CloseDialog => ActionView::CloseDialog,
            GameAction::DeleteBeatmap(h) => ActionView::DeleteBeatmap(*h),
            GameAction::CopyHash(h) => ActionView::CopyHash(*h),
            GameAction::CreateLobby { name, password, private, players } => ActionView::CreateLobby {
                name: name@,
                password: password@,
                private: *private,
                players: *players,
            },
            GameAction::JoinLobby { lobby_id, password } =>
                ActionView::JoinLobby { lobby_id: *lobby_id, password: password@ },
            GameAction::ChangeLobbyHost(u) => ActionView::ChangeLobbyHost(*u),
            GameAction::KickSlot(s) => ActionView::KickSlot(*s),
            GameAction::Restart => ActionView::Restart,
            GameAction::Resume => ActionView::Resume,
            GameAction::FreeGame => ActionView::FreeGame,
            GameAction::SetMenu(m) => ActionView::SetMenu(m@),
            GameAction::ToggleMod(m) => ActionView::ToggleMod(m@),
            GameAction::RemoveMod(m) => ActionView::RemoveMod(m@),
            GameAction::BeatmapNext => ActionView::BeatmapNext,
            GameAction::Spectate(u) => ActionView::Spectate(*u),
            GameAction::OpenChat(n) => ActionView::OpenChat(n@),
            GameAction::AddRemoveFriend(u) => ActionView::AddRemoveFriend(*u),
            GameAction::InviteUser(u) => ActionView::InviteUser(*u),
            GameAction::LoadBeatmaps => ActionView::LoadBeatmaps,
        }
    }
}

/// The views of a list of actions.
pub open spec fn action_views(s: Seq<GameAction>) -> Seq<ActionView> {
    s.map_values(|a: GameAction| a@)
}

/// A list of one action.
fn one(a: GameAction) -> (v: Vec<GameAction>)
    ensures
        action_views(v@) == seq![a@],
{
    let mut v: Vec<GameAction> = Vec::new();
    v.push(a);
    assert(action_views(v@) =~= seq![a@]);
    v
}

/// A list of two actions.
fn two(a: GameAction, b: GameAction) -> (v: Vec<GameAction>)
    ensures
        action_views(v@) == seq![a@, b@],
{
    let mut v: Vec<GameAction> = Vec::new();
    v.push(a);
    v.push(b);
    assert(action_views(v@) =~= seq![a@, b@]);
    v
}

/// No actions.
fn none() -> (v: Vec<GameAction>)
    ensures
        action_views(v@) == Seq::<ActionView>::empty(),
{
    let v: Vec<GameAction> = Vec::new();
    assert(action_views(v@) =~= Seq::<ActionView>::empty());
    v
}

/// The dialog with a beatmap's options.
#[derive(Debug)]
pub struct BeatmapDialog {
    pub target_map: u128,
}

impl BeatmapDialog {
    /// Options for the beatmap with the given hash.
    pub fn new(target_map: u128) -> (d: BeatmapDialog)
        ensures
            d.target_map == target_map,
    {
        BeatmapDialog { target_map }
    }

    /// The widget's name.
    pub fn name(&self) -> (s: String)
        ensures
            s@ == "beatmap_dialog"@,
    {
        String::from_str("beatmap_dialog")
    }

    /// `"delete"` deletes the map, `"copy_hash"` copies its hash; either closes the dialog.
    pub fn handle_message(&self, tag: &str) -> (actions: Vec<GameAction>)
        ensures
            action_views(actions@) == if tag@ == "delete"@ {
                seq![ActionView::DeleteBeatmap(self.target_map), ActionView::CloseDialog]
            } else if tag@ == "copy_hash"@ {
                seq![ActionView::CopyHash(self.target_map), ActionView::CloseDialog]
            } else {
                Seq::empty()
            },
    {
        if same_text(tag, "delete") {
            two(GameAction::DeleteBeatmap(self.target_map), GameAction::CloseDialog)
        } else if same_text(tag, "copy_hash") {
            two(GameAction::CopyHash(self.target_map), GameAction::CloseDialog)
        } else {
            none()
        }
    }

    /// The notification after trying to copy the hash to the clipboard.
    pub fn copy_hash_notification(result: Result<(), String>) -> (n: Notification)
        ensures
            match result {
                Ok(_) => n@ == (NotificationView {
                    text: "Hash copied to clipboard!"@,
                    color: NotificationColor::LightBlue,
                    duration_ms: 3000,
                    onclick: OnClickView::Nothing,
                }),
                Err(e) => n@.text == error_text("Failed to copy hash to clipboard"@, e@)
                    && n@.color == NotificationColor::Red,
            },
    {
        match result {
            Ok(_) => Notification::new_text(
                String::from_str("Hash copied to clipboard!"),
                NotificationColor::LightBlue,
                3000,
            ),
            Err(e) => Notification::new_error("Failed to copy hash to clipboard", e.as_str()),
        }
    }
}

/// A dialog of buttons, each with what it does when clicked.
#[derive(Debug)]
pub struct GenericDialog<C> {
    pub buttons: Vec<(String, C)>,
}

/// The texts of a dialog's buttons.
pub open spec fn button_texts<C>(b: Seq<(String, C)>) -> Seq<Seq<char>> {
    b.map_values(|x: (String, C)| x.0@)
}

impl<C> GenericDialog<C> {
    /// A dialog without buttons; the title is shown by the dialog frame.
    pub fn new(title: &str) -> (d: GenericDialog<C>)
        ensures
            d.buttons@ == Seq::<(String, C)>::empty(),
    {
        GenericDialog { buttons: Vec::new() }
    }

    /// The widget's name.
    pub fn name(&self) -> (s: String)
        ensures
            s@ == "generic_dialog"@,
    {
        String::from_str("generic_dialog")
    }

    /// The position of the button with the given text.
    fn find(&self, text: &str) -> (i: Option<usize>)
        ensures
            match i {
                Some(i) => i < self.buttons@.len() && self.buttons@[i as int].0@ == text@
                    && forall|j: int| 0 <= j < i ==> #[trigger] self.buttons@[j].0@ != text@,
                None => forall|j: int| 0 <= j < self.buttons@.len() ==> #[trigger] self.buttons@[j].0@ != text@,
            },
    {
        for i in 0..self.buttons.len()
            invariant
                forall|j: int| 0 <= j < i ==> #[trigger] self.buttons@[j].0@ != text@,
        {
            if same_text(self.buttons[i].0.as_str(), text) {
                return Some(i);
            }
        }
        None
    }

    /// Adds a button; a button with the same text is replaced.
    pub fn add_button(&mut self, text: String, on_click: C)
        ensures
            ({
                let b = old(self).buttons@;
                if exists|i: int| 0 <= i < b.len() && #[trigger] b[i].0@ == text@ {
                    exists|i: int| 0 <= i < b.len() && b[i].0@ == text@
                        && (forall|j: int| 0 <= j < i ==> #[trigger] b[j].0@ != text@)
                        && final(self).buttons@ == b.update(i, (text, on_click))
                } else {
                    final(self).buttons@ == b.push((text, on_click))
                }
            }),
    {
        match self.find(text.as_str()) {
            Some(i) => {
                self.buttons.set(i, (text, on_click));
            },
            None => {
                self.buttons.push((text, on_click));
            },
        }
    }

    /// What the clicked button does, if a button has the message's tag as its text.
    pub fn handle_message(&self, tag: &str) -> (c: Option<&C>)
        ensures
            match c {
                Some(c) => exists|i: int| 0 <= i < self.buttons@.len() && self.buttons@[i].0@ == tag@
                    && *c == self.buttons@[i].1,
                None => !button_texts(self.buttons@).contains(tag@),
            },
    {
        match self.find(tag) {
            Some(i) => Some(&self.buttons[i].1),
            None => {
                proof {
                    if button_texts(self.buttons@).contains(tag@) {
                        let j = choose|j: int| 0 <= j < self.buttons@.len() && #[trigger] button_texts(self.buttons@)[j] == tag@;
                        assert(self.buttons@[j].0@ != tag@);
                    }
                }
                None
            },
        }
    }
}

/// A question with yes, no and possibly cancel buttons.
#[derive(Debug)]
pub struct YesNoDialog {
    pub title: String,
    pub prompt: String,
    pub show_cancel: bool,
}

impl YesNoDialog {
    /// A question; `show_cancel` adds a cancel button.
    pub fn new(title: String, prompt: String, show_cancel: bool) -> (d: YesNoDialog)
        ensures
            d.title == title,
            d.prompt == prompt,
            d.show_cancel == show_cancel,
    {
        YesNoDialog { title, prompt, show_cancel }
    }

    /// The widget's name.
    pub fn name(&self) -> (s: String)
        ensures
            s@ == "yes_no_dialog"@,
    {
        String::from_str("yes_no_dialog")
    }

    /// The answer a message gives, and whether the dialog then closes itself: a forced
    /// close answers cancel without closing (it is being closed already).
    pub fn handle_message(&self, tag: &str) -> (r: (Option<YesNoResult>, bool))
        ensures
            r == if tag@ == "force_close"@ {
                (Some(YesNoResult::Cancel), false)
            } else if tag@ == "yes"@ {
                (Some(YesNoResult::Yes), true)
            } else if tag@ == "no"@ {
                (Some(YesNoResult::No), true)
            } else if tag@ == "cancel"@ {
                (Some(YesNoResult::Cancel), true)
            } else {
                (None, false)
            },
    {
        if same_text(tag, "force_close") {
            (Some(YesNoResult::Cancel), false)
        } else if same_text(tag, "yes") {
            (Some(YesNoResult::Yes), true)
        } else if same_text(tag, "no") {
            (Some(YesNoResult::No), true)
        } else if same_text(tag, "cancel") {
            (Some(YesNoResult::Cancel), true)
        } else {
            (None, false)
        }
    }
}

/// A console: the lines entered and their results, and the line being typed.
#[derive(Debug)]
pub struct ConsoleDialog {
    pub output: Vec<String>,
    pub input: String,
}

impl ConsoleDialog {
    /// An empty console.
    pub fn new() -> (d: ConsoleDialog)
        ensures
            d.output@ == Seq::<String>::empty(),
            d.input@ == Seq::<char>::empty(),
    {
        ConsoleDialog { output: Vec::new(), input: String::new() }
    }

    /// The widget's name.
    pub fn name(&self) -> (s: String)
        ensures
            s@ == "console_widget"@,
    {
        String::from_str("console_widget")
    }

    /// A submitted line: the input is cleared, and the line and `"-> {result}\n"` are
    /// added to the output.
    pub fn submit(&mut self, line: String, result: String)
        ensures
            final(self).input@ == Seq::<char>::empty(),
            string_views(final(self).output@) == string_views(old(self).output@).push(line@).push(
                "-> "@ + result@ + "\n"@,
            ),
    {
        self.input = String::new();
        let ghost before = string_views(self.output@);
        let ghost l = line@;
        self.output.push(line);
        let mut r = String::from_str("-> ");
        r.append(result.as_str());
        r.append("\n");
        self.output.push(r);
        assert(string_views(self.output@) =~= before.push(l).push("-> "@ + result@ + "\n"@));
    }
}

/// A dialog for trying out the dialog frame.
#[derive(Debug)]
pub struct TestDialog {
    pub num: usize,
    pub should_close: bool,
}

impl TestDialog {
    /// A fresh test dialog.
    pub fn new() -> (d: TestDialog)
        ensures
            d.num == 0,
            !d.should_close,
    {
        TestDialog { num: 0, should_close: false }
    }

    /// The dialog's name.
    pub fn name(&self) -> (s: String)
        ensures
            s@ == "test_weee"@,
    {
        String::from_str("test_weee")
    }

    /// The dialog's title.
    pub fn title(&self) -> (s: String)
        ensures
            s@ == "Test Dialog"@,
    {
        String::from_str("Test Dialog")
    }

    /// The dialog's number.
    pub fn get_num(&self) -> (n: usize)
        ensures
            n == self.num,
    {
        self.num
    }

    /// Sets the dialog's number.
    pub fn set_num(&mut self, num: usize)
        ensures
            final(self).num == num,
            final(self).should_close == old(self).should_close,
    {
        self.num = num;
    }

    /// Whether the dialog wants to close.
    pub fn should_close(&self) -> (b: bool)
        ensures
            b == self.should_close,
    {
        self.should_close
    }
}

/// The queue of beatmap downloads, shown as a dialog.
#[derive(Debug)]
pub struct DirectDownloadDialog<I> {
    pub num: usize,
    pub items: Vec<I>,
    pub should_close: bool,
}

impl<I> DirectDownloadDialog<I> {
    /// A dialog showing the given download queue.
    pub fn new(queue: Vec<I>) -> (d: DirectDownloadDialog<I>)
        ensures
            d.num == 0,
            d.items@ == queue@,
            !d.should_close,
    {
        DirectDownloadDialog { num: 0, items: queue, should_close: false }
    }

    /// The dialog's name.
    pub fn name(&self) -> (s: String)
        ensures
            s@ == "direct_download"@,
    {
        String::from_str("direct_download")
    }

    /// The dialog's number.
    pub fn get_num(&self) -> (n: usize)
        ensures
            n == self.num,
    {
        self.num
    }

    /// Sets the dialog's number.
    pub fn set_num(&mut self, num: usize)
        ensures
            final(self).num == num,
            final(self).items == old(self).items,
            final(self).should_close == old(self).should_close,
    {
        self.num = num;
    }

    /// Whether the dialog wants to close.
    pub fn should_close(&self) -> (b: bool)
        ensures
            b == self.should_close,
    {
        self.should_close
    }

    /// Asks the dialog to close.
    pub fn force_close(&mut self)
        ensures
            final(self).should_close,
            final(self).num == old(self).num,
            final(self).items == old(self).items,
    {
        self.should_close = true;
    }
}

/// A gameplay mod, with the mods it turns off.
#[derive(Debug)]
pub struct GameplayMod {
    pub name: String,
    pub display_name: String,
    pub description: String,
    pub removes: Vec<String>,
}

/// A named group of mods.
#[derive(Debug)]
pub struct GameplayModGroup {
    pub name: String,
    pub mods: Vec<GameplayMod>,
}

/// The names of some groups and the mods in them.
pub open spec fn groups_view(g: Seq<GameplayModGroup>) -> Seq<(Seq<char>, Seq<GameplayMod>)> {
    g.map_values(|x: GameplayModGroup| (x.name@, x.mods@))
}

/// A group list with one group merged in: its mods join the first group of the same
/// name, or it is added at the end.
pub open spec fn merge_group(
    list: Seq<(Seq<char>, Seq<GameplayMod>)>,
    g: (Seq<char>, Seq<GameplayMod>),
) -> Seq<(Seq<char>, Seq<GameplayMod>)> {
    match list.map_values(|x: (Seq<char>, Seq<GameplayMod>)| x.0).index_of_first(g.0) {
        Some(i) => list.update(i, (list[i].0, list[i].1 + g.1)),
        None => list.push(g),
    }
}

/// Groups merged one after the other into a group list.
pub open spec fn merge_groups(
    base: Seq<(Seq<char>, Seq<GameplayMod>)>,
    groups: Seq<(Seq<char>, Seq<GameplayMod>)>,
) -> Seq<(Seq<char>, Seq<GameplayMod>)>
    decreases groups.len(),
{
    if groups.len() == 0 {
        base
    } else {
        merge_group(merge_groups(base, groups.drop_last()), groups.last())
    }
}

/// The mods of a mod message, to toggle and to turn off.
pub open spec fn mod_actions(m: GameplayMod) -> Seq<ActionView> {
    seq![ActionView::ToggleMod(m.name@)] + m.removes@.map_values(|r: String| ActionView::RemoveMod(r@))
}

/// The dialog listing the gameplay mods.
#[derive(Debug)]
pub struct ModDialog {
    pub mod_groups: Vec<GameplayModGroup>,
}

impl ModDialog {
    /// The default groups, with each given group merged into the first default group of
    /// the same name, or added after them.
    pub fn new(defaults: Vec<GameplayModGroup>, groups: Vec<GameplayModGroup>) -> (d: ModDialog)
        ensures
            groups_view(d.mod_groups@) == merge_groups(groups_view(defaults@), groups_view(groups@)),
    {
        let mut new_groups = defaults;
        let ghost base = groups_view(new_groups@);
        let ghost gs = groups_view(groups@);
        assert(gs.take(0) =~= Seq::<(Seq<char>, Seq<GameplayMod>)>::empty());
        for g in it: groups
            invariant
                it.seq() == groups@,
                gs == groups_view(groups@),
                groups_view(new_groups@) == merge_groups(base, gs.take(it.index() as int)),
        {
            let ghost k = it.index();
            assert(gs.take(k + 1).drop_last() =~= gs.take(k as int));
            assert(gs.take(k + 1).last() == (g.name@, g.mods@));
            let ghost cur = groups_view(new_groups@);
            let ghost names = cur.map_values(|x: (Seq<char>, Seq<GameplayMod>)| x.0);
            let mut found: Option<usize> = None;
            for j in 0..new_groups.len()
                invariant_except_break
                    found is None,
                    forall|m: int| 0 <= m < j ==> #[trigger] names[m] != g.name@,
                invariant
                    cur == groups_view(new_groups@),
                    names == cur.map_values(|x: (Seq<char>, Seq<GameplayMod>)| x.0),
                    found matches Some(f) ==> f < new_groups@.len() && names[f as int] == g.name@
                        && forall|m: int| 0 <= m < f ==> #[trigger] names[m] != g.name@,
                ensures
                    found is None ==> forall|m: int| 0 <= m < names.len() ==> #[trigger] names[m] != g.name@,
                    found matches Some(f) ==> f < new_groups@.len() && names[f as int] == g.name@
                        && forall|m: int| 0 <= m < f ==> #[trigger] names[m] != g.name@,
            {
                if same_text(new_groups[j].name.as_str(), g.name.as_str()) {
                    found = Some(j);
                    break;
                }
            }
            proof { names.index_of_first_ensures(g.name@); }
            match found {
                Some(f) => {
                    let mut group = new_groups.remove(f);
                    let mut mods = g.mods;
                    let ghost old_mods = group.mods@;
                    let ghost added = mods@;
                    group.mods.append(&mut mods);
                    new_groups.insert(f, group);
                    proof {
                        let i = names.index_of_first(g.name@)->0;
                        if i < f {
                            assert(names[i] != g.name@);
                        }
                        if f < i {
                            assert(names[f as int] != g.name@);
                        }
                    }
                    assert(groups_view(new_groups@) =~= cur.update(f as int, (cur[f as int].0, cur[f as int].1 + added)));
                },
                None => {
                    proof {
                        if names.contains(g.name@) {
                            let m = choose|m: int| 0 <= m < names.len() && names[m] == g.name@;
                            assert(names[m] != g.name@);
                        }
                    }
                    let ghost gv = (g.name@, g.mods@);
                    new_groups.push(g);
                    assert(groups_view(new_groups@) =~= cur.push(gv));
                },
            }
        }
        assert(gs.take(gs.len() as int) =~= gs);
        ModDialog { mod_groups: new_groups }
    }

    /// The widget's name.
    pub fn name(&self) -> (s: String)
        ensures
            s@ == "mod_dialog"@,
    {
        String::from_str("mod_dialog")
    }

    /// A mod was clicked: toggle it, and turn off the mods it removes.
    pub fn handle_message(&self, m: &GameplayMod) -> (actions: Vec<GameAction>)
        ensures
            action_views(actions@) == mod_actions(*m),
    {
        let mut actions = one(GameAction::ToggleMod(m.name.clone()));
        for i in 0..m.removes.len()
            invariant
                action_views(actions@) == seq![ActionView::ToggleMod(m.name@)] + m.removes@.take(i as int).map_values(
                    |r: String| ActionView::RemoveMod(r@),
                ),
        {
            let ghost before = action_views(actions@);
            actions.push(GameAction::RemoveMod(m.removes[i].clone()));
            assert(m.removes@.take(i + 1).map_values(|r: String| ActionView::RemoveMod(r@))
                =~= m.removes@.take(i as int).map_values(|r: String| ActionView::RemoveMod(r@)).push(
                ActionView::RemoveMod(m.removes@[i as int]@),
            ));
            assert(action_views(actions@) =~= before.push(ActionView::RemoveMod(m.removes@[i as int]@)));
        }
        assert(m.removes@.take(m.removes@.len() as int) =~= m.removes@);
        actions
    }
}

/// The form for creating a multiplayer lobby.
#[derive(Debug)]
pub struct CreateLobbyDialog {
    pub name: String,
    pub password: String,
    pub private: bool,
}

/// Players a new lobby has room for.
pub const LOBBY_PLAYERS: u8 = 16;

impl CreateLobbyDialog {
    /// An empty form.
    pub fn new() -> (d: CreateLobbyDialog)
        ensures
            d.name@ == Seq::<char>::empty(),
            d.password@ == Seq::<char>::empty(),
            !d.private,
    {
        CreateLobbyDialog { name: String::new(), password: String::new(), private: false }
    }

    /// The widget's name.
    pub fn name(&self) -> (s: String)
        ensures
            s@ == "create_lobby_dialog"@,
    {
        String::from_str("create_lobby_dialog")
    }

    /// Fills the form from its inputs; `"done"` creates the lobby and closes the dialog,
    /// `"close"` only closes it.
    pub fn handle_message(&mut self, tag: &str, value: MessageValue) -> (actions: Vec<GameAction>)
        ensures
            if tag@ == "lobby_name"@ {
                &&& action_views(actions@) == Seq::<ActionView>::empty()
                &&& match value {
                    MessageValue::Text(t) => final(self).name == t && final(self).password == old(self).password
                        && final(self).private == old(self).private,
                    _ => *final(self) == *old(self),
                }
            } else if tag@ == "lobby_password"@ {
                &&& action_views(actions@) == Seq::<ActionView>::empty()
                &&& match value {
                    MessageValue::Text(t) => final(self).password == t && final(self).name == old(self).name
                        && final(self).private == old(self).private,
                    _ => *final(self) == *old(self),
                }
            } else if tag@ == "lobby_private"@ {
                &&& action_views(actions@) == Seq::<ActionView>::empty()
                &&& match value {
                    MessageValue::Toggle(v) => final(self).private == v && final(self).name == old(self).name
                        && final(self).password == old(self).password,
                    _ => *final(self) == *old(self),
                }
            } else if tag@ == "done"@ {
                &&& action_views(actions@) == seq![
                    ActionView::CreateLobby {
                        name: old(self).name@,
                        password: old(self).password@,
                        private: old(self).private,
                        players: LOBBY_PLAYERS,
                    },
                    ActionView::CloseDialog,
                ]
                &&& *final(self) == *old(self)
            } else if tag@ == "close"@ {
                action_views(actions@) == seq![ActionView::CloseDialog] && *final(self) == *old(self)
            } else {
                action_views(actions@) == Seq::<ActionView>::empty() && *final(self) == *old(self)
            },
    {
        if same_text(tag, "lobby_name") {
            if let MessageValue::Text(t) = value {
                self.name = t;
            }
            none()
        } else if same_text(tag, "lobby_password") {
            if let MessageValue::Text(t) = value {
                self.password = t;
            }
            none()
        } else if same_text(tag, "lobby_private") {
            if let MessageValue::Toggle(v) = value {
                self.private = v;
            }
            none()
        } else if same_text(tag, "done") {
            two(
                GameAction::CreateLobby {
                    name: self.name.clone(),
                    password: self.password.clone(),
                    private: self.private,
                    players: LOBBY_PLAYERS,
                },
                GameAction::CloseDialog,
            )
        } else if same_text(tag, "close") {
            one(GameAction::CloseDialog)
        } else {
            none()
        }
    }
}

/// The form for joining a lobby with a password.
#[derive(Debug)]
pub struct JoinLobbyDialog {
    pub lobby_id: u32,
    pub password: String,
}

impl JoinLobbyDialog {
    /// An empty form for the given lobby.
    pub fn new(lobby_id: u32) -> (d: JoinLobbyDialog)
        ensures
            d.lobby_id == lobby_id,
            d.password@ == Seq::<char>::empty(),
    {
        JoinLobbyDialog { lobby_id, password: String::new() }
    }

    /// The widget's name.
    pub fn name(&self) -> (s: String)
        ensures
            s@ == "join_lobby_dialog"@,
    {
        String::from_str("join_lobby_dialog")
    }

    /// Fills the password; `"done"` joins the lobby and closes the dialog, `"close"` only
    /// closes it.
    pub fn handle_message(&mut self, tag: &str, value: MessageValue) -> (actions: Vec<GameAction>)
        ensures
            final(self).lobby_id == old(self).lobby_id,
            if tag@ == "password"@ {
                &&& action_views(actions@) == Seq::<ActionView>::empty()
                &&& match value {
                    MessageValue::Text(t) => final(self).password == t,
                    _ => final(self).password == old(self).password,
                }
            } else if tag@ == "done"@ {
                &&& action_views(actions@) == seq![
                    ActionView::JoinLobby { lobby_id: old(self).lobby_id, password: old(self).password@ },
                    ActionView::CloseDialog,
                ]
                &&& final(self).password == old(self).password
            } else if tag@ == "close"@ {
                action_views(actions@) == seq![ActionView::CloseDialog] && final(self).password == old(self).password
            } else {
                action_views(actions@) == Seq::<ActionView>::empty() && final(self).password == old(self).password
            },
    {
        if same_text(tag, "password") {
            if let MessageValue::Text(t) = value {
                self.password = t;
            }
            none()
        } else if same_text(tag, "done") {
            two(GameAction::JoinLobby { lobby_id: self.lobby_id, password: self.password.clone() }, GameAction::CloseDialog)
        } else if same_text(tag, "close") {
            one(GameAction::CloseDialog)
        } else {
            none()
        }
    }
}

/// The options for a player of our lobby.
#[derive(Debug)]
pub struct LobbyPlayerDialog {
    pub user_id: u32,
    pub slot_id: u8,
    pub is_self: bool,
    pub we_are_host: bool,
}

impl LobbyPlayerDialog {
    /// Options for the player in a slot.
    pub fn new(user_id: u32, slot_id: u8, is_self: bool, we_are_host: bool) -> (d: LobbyPlayerDialog)
        ensures
            d == (LobbyPlayerDialog { user_id, slot_id, is_self, we_are_host }),
    {
        LobbyPlayerDialog { user_id, slot_id, is_self, we_are_host }
    }

    /// The widget's name.
    pub fn name(&self) -> (s: String)
        ensures
            s@ == "lobby_player_dialog"@,
    {
        String::from_str("lobby_player_dialog")
    }

    /// Whether the host buttons (transfer host, kick) are shown: only the host sees them,
    /// and not for themself.
    pub fn shows_host_buttons(&self) -> (b: bool)
        ensures
            b == (self.we_are_host && !self.is_self),
    {
        self.we_are_host && !self.is_self
    }

    /// `"make_host"` hands the lobby to the player, `"kick"` kicks the player's slot; these
    /// and `"close"` close the dialog.
    pub fn handle_message(&self, tag: &str) -> (actions: Vec<GameAction>)
        ensures
            action_views(actions@) == if tag@ == "close"@ {
                seq![ActionView::CloseDialog]
            } else if tag@ == "make_host"@ {
                seq![ActionView::ChangeLobbyHost(self.user_id), ActionView::CloseDialog]
            } else if tag@ == "kick"@ {
                seq![ActionView::KickSlot(self.slot_id), ActionView::CloseDialog]
            } else {
                Seq::empty()
            },
    {
        if same_text(tag, "close") {
            one(GameAction::CloseDialog)
        } else if same_text(tag, "make_host") {
            two(GameAction::ChangeLobbyHost(self.user_id), GameAction::CloseDialog)
        } else if same_text(tag, "kick") {
            two(GameAction::KickSlot(self.slot_id), GameAction::CloseDialog)
        } else {
            none()
        }
    }
}

/// The menu shown when gameplay is paused, or failed.
#[derive(Debug)]
pub struct PauseMenu {
    /// actions waiting for the next update
    pub actions: Vec<GameAction>,
    pub is_fail_menu: bool,
}

impl PauseMenu {
    /// A pause menu, or a fail menu (which cannot resume).
    pub fn new(is_fail_menu: bool) -> (m: PauseMenu)
        ensures
            m.actions@ == Seq::<GameAction>::empty(),
            m.is_fail_menu == is_fail_menu,
    {
        PauseMenu { actions: Vec::new(), is_fail_menu }
    }

    /// The widget's name.
    pub fn name(&self) -> (s: String)
        ensures
            s@ == if self.is_fail_menu { "fail_menu"@ } else { "pause_menu"@ },
    {
        if self.is_fail_menu {
            String::from_str("fail_menu")
        } else {
            String::from_str("pause_menu")
        }
    }

    /// The skin texture behind the menu.
    pub fn background_texture(&self) -> (s: String)
        ensures
            s@ == if self.is_fail_menu { "fail-background"@ } else { "pause-overlay"@ },
    {
        if self.is_fail_menu {
            String::from_str("fail-background")
        } else {
            String::from_str("pause-overlay")
        }
    }

    /// Whether the resume button is shown.
    pub fn can_resume(&self) -> (b: bool)
        ensures
            b == !self.is_fail_menu,
    {
        !self.is_fail_menu
    }

    /// Goes back to the game, from the start or where it paused.
    pub fn unpause(&mut self, restart: bool)
        ensures
            final(self).is_fail_menu == old(self).is_fail_menu,
            action_views(final(self).actions@) == action_views(old(self).actions@).push(
                if restart { ActionView::Restart } else { ActionView::Resume },
            ),
    {
        let ghost before = action_views(self.actions@);
        if restart {
            self.actions.push(GameAction::Restart);
        } else {
            self.actions.push(GameAction::Resume);
        }
        assert(action_views(self.actions@) =~= before.push(
            if restart { ActionView::Restart } else { ActionView::Resume },
        ));
    }

    /// Leaves the game for the beatmap select menu.
    fn exit(&mut self)
        ensures
            final(self).is_fail_menu == old(self).is_fail_menu,
            action_views(final(self).actions@) == action_views(old(self).actions@).push(ActionView::FreeGame).push(
                ActionView::SetMenu("beatmap_select"@),
            ),
    {
        let ghost before = action_views(self.actions@);
        self.actions.push(GameAction::FreeGame);
        self.actions.push(GameAction::SetMenu(String::from_str("beatmap_select")));
        assert(action_views(self.actions@) =~= before.push(ActionView::FreeGame).push(
            ActionView::SetMenu("beatmap_select"@),
        ));
    }

    /// `"resume"` resumes, `"retry"` restarts, `"quit"` leaves the game.
    pub fn handle_message(&mut self, tag: &str)
        ensures
            final(self).is_fail_menu == old(self).is_fail_menu,
            action_views(final(self).actions@) == action_views(old(self).actions@) + if tag@ == "resume"@ {
                seq![ActionView::Resume]
            } else if tag@ == "retry"@ {
                seq![ActionView::Restart]
            } else if tag@ == "quit"@ {
                seq![ActionView::FreeGame, ActionView::SetMenu("beatmap_select"@)]
            } else {
                Seq::empty()
            },
    {
        let ghost before = action_views(self.actions@);
        if same_text(tag, "resume") {
            self.unpause(false);
            assert(action_views(self.actions@) =~= before + seq![ActionView::Resume]);
        } else if same_text(tag, "retry") {
            self.unpause(true);
            assert(action_views(self.actions@) =~= before + seq![ActionView::Restart]);
        } else if same_text(tag, "quit") {
            self.exit();
            assert(action_views(self.actions@) =~= before + seq![
                ActionView::FreeGame,
                ActionView::SetMenu("beatmap_select"@),
            ]);
        } else {
            assert(action_views(self.actions@) =~= before + Seq::<ActionView>::empty());
        }
    }

    /// Hands over the actions waiting since the last update.
    pub fn update(&mut self) -> (actions: Vec<GameAction>)
        ensures
            actions@ == old(self).actions@,
            final(self).actions@ == Seq::<GameAction>::empty(),
            final(self).is_fail_menu == old(self).is_fail_menu,
    {
        let mut actions: Vec<GameAction> = Vec::new();
        std::mem::swap(&mut actions, &mut self.actions);
        actions
    }
}

/// The menu shown while spectating.
#[derive(Debug)]
pub struct SpectatorMenu {}

impl SpectatorMenu {
    /// The spectator menu.
    pub fn new() -> (m: SpectatorMenu) {
        SpectatorMenu {}
    }

    /// The widget's name.
    pub fn name(&self) -> (s: String)
        ensures
            s@ == "spectator_menu"@,
    {
        String::from_str("spectator_menu")
    }
}

/// What a message to the settings menu asks for; `S` is the settings type.
#[derive(Debug)]
pub enum SettingsStep<S> {
    /// put the settings back as they were when the menu opened
    Revert(S),
    /// show the settings matching any of these words
    Search(Vec<String>),
    /// close the menu after its closing animation, this many milliseconds long
    Close { delay_ms: u64 },
    /// a gamemode setting changed
    GamemodeSetting,
    /// a setting changed
    Setting,
    Nothing,
}

/// How long the settings menu takes to close, in milliseconds.
pub const SETTINGS_CLOSE_MS: u64 = 200;

/// The first part of a dotted path.
pub open spec fn first_segment(tag: Seq<char>) -> Seq<char> {
    split_on(tag, '.')[0]
}

/// The settings menu, which keeps the settings it opened with for a revert.
#[derive(Debug)]
pub struct SettingsMenu<S> {
    pub filter_text: String,
    pub old_settings: S,
}

impl<S: Copy> SettingsMenu<S> {
    /// A settings menu over the current settings.
    pub fn new(settings: S) -> (m: SettingsMenu<S>)
        ensures
            m.filter_text@ == Seq::<char>::empty(),
            m.old_settings == settings,
    {
        SettingsMenu { filter_text: String::new(), old_settings: settings }
    }

    /// The widget's name.
    pub fn name(&self) -> (s: String)
        ensures
            s@ == "settings_menu"@,
    {
        String::from_str("settings_menu")
    }

    /// What a message asks, by the first part of its tag: `"revert"`, `"search"` (with the
    /// search text split at spaces), `"close"` or `"force_close"`, `"var"` for gamemode
    /// settings; any other tag is a setting.
    pub fn handle_message(&self, tag: &str, value: &MessageValue) -> (step: SettingsStep<S>)
        ensures
            ({
                let first = first_segment(tag@);
                if first == "revert"@ {
                    step == SettingsStep::Revert(self.old_settings)
                } else if first == "search"@ {
                    match value {
                        MessageValue::Text(t) => step matches SettingsStep::Search(words)
                            && string_views(words@) == split_on(t@, ' '),
                        _ => step is Nothing,
                    }
                } else if first == "force_close"@ || first == "close"@ {
                    step == SettingsStep::<S>::Close { delay_ms: SETTINGS_CLOSE_MS }
                } else if first == "var"@ {
                    step is GamemodeSetting
                } else {
                    step is Setting
                }
            }),
    {
        let parts = split_text(tag, '.');
        proof { crate::text::lemma_split_nonempty(tag@, '.'); }
        let first = parts[0].as_str();
        if same_text(first, "revert") {
            SettingsStep::Revert(self.old_settings)
        } else if same_text(first, "search") {
            match value {
                MessageValue::Text(t) => SettingsStep::Search(split_text(t.as_str(), ' ')),
                _ => SettingsStep::Nothing,
            }
        } else if same_text(first, "force_close") || same_text(first, "close") {
            SettingsStep::Close { delay_ms: SETTINGS_CLOSE_MS }
        } else if same_text(first, "var") {
            SettingsStep::GamemodeSetting
        } else {
            SettingsStep::Setting
        }
    }
}

/// The line a loading menu shows for a stage: its error, `Done`, its message, or its
/// progress.
pub open spec fn status_text(s: LoadingStatus) -> Seq<char> {
    match s.error {
        Some(e) => "Error: "@ + e@,
        None => if s.complete {
            "Done"@
        } else if s.custom_message@.len() > 0 {
            s.custom_message@
        } else {
            decimal(s.items_complete as nat) + "/"@ + decimal(s.item_count as nat)
        },
    }
}

/// Whether a loading stage's line is shown in red (an error), lime (done) or blue.
pub open spec fn status_color(s: LoadingStatus) -> NotificationColor {
    if s.error is Some {
        NotificationColor::Red
    } else if s.complete {
        NotificationColor::Green
    } else {
        NotificationColor::Blue
    }
}

/// The menu shown while the game loads.
#[derive(Debug)]
pub struct LoadingMenu {
    pub actions: Vec<GameAction>,
    pub statuses: Vec<LoadingStatus>,
}

impl LoadingMenu {
    /// Nothing loading yet.
    pub fn new() -> (m: LoadingMenu)
        ensures
            m.actions@ == Seq::<GameAction>::empty(),
            m.statuses@ == Seq::<LoadingStatus>::empty(),
    {
        LoadingMenu { actions: Vec::new(), statuses: Vec::new() }
    }

    /// The widget's name.
    pub fn name(&self) -> (s: String)
        ensures
            s@ == "loading_menu"@,
    {
        String::from_str("loading_menu")
    }

    /// Starts loading: the beatmaps (through a task) and the fonts, each with its stage.
    pub fn load(&mut self)
        ensures
            action_views(final(self).actions@) == action_views(old(self).actions@).push(ActionView::LoadBeatmaps),
            final(self).statuses@.len() == old(self).statuses@.len() + 2,
            forall|i: int| 0 <= i < old(self).statuses@.len() ==> final(self).statuses@[i] == old(self).statuses@[i],
            crate::tasks::fresh_status(final(self).statuses@[old(self).statuses@.len() as int], "Loading beatmaps"@),
            crate::tasks::fresh_status(final(self).statuses@[old(self).statuses@.len() + 1int], "Initializing fonts"@),
    {
        let ghost before = action_views(self.actions@);
        self.actions.push(GameAction::LoadBeatmaps);
        assert(action_views(self.actions@) =~= before.push(ActionView::LoadBeatmaps));
        self.statuses.push(LoadingStatus::new(String::from_str("Loading beatmaps")));
        self.statuses.push(LoadingStatus::new(String::from_str("Initializing fonts")));
    }

    /// The font stage: three items, done once the fonts are loaded.
    pub fn fonts_loaded(status: &mut LoadingStatus)
        ensures
            final(status).item_count == 3,
            final(status).complete,
            final(status).name == old(status).name,
            final(status).items_complete == old(status).items_complete,
            final(status).error == old(status).error,
            final(status).custom_message == old(status).custom_message,
    {
        status.item_count = 3;
        status.complete = true;
    }

    /// The line shown for a stage, after `"{name}: "`.
    pub fn status_line(status: &LoadingStatus) -> (s: String)
        ensures
            s@ == status_text(*status),
    {
        match &status.error {
            Some(e) => {
                let mut s = String::from_str("Error: ");
                s.append(e.as_str());
                s
            },
            None => if status.complete {
                String::from_str("Done")
            } else if status.custom_message.unicode_len() > 0 {
                status.custom_message.clone()
            } else {
                let mut s = String::new();
                push_decimal(&mut s, status.items_complete as u64);
                s.append("/");
                push_decimal(&mut s, status.item_count as u64);
                s
            },
        }
    }

    /// The color a stage's line is shown in.
    pub fn status_line_color(status: &LoadingStatus) -> (c: NotificationColor)
        ensures
            c == status_color(*status),
    {
        if status.error.is_some() {
            NotificationColor::Red
        } else if status.complete {
            NotificationColor::Green
        } else {
            NotificationColor::Blue
        }
    }

    /// Hands over the waiting actions; once every stage is complete, also moves on to the
    /// next beatmap and the main menu.
    pub fn update(&mut self) -> (actions: Vec<GameAction>)
        ensures
            final(self).statuses == old(self).statuses,
            final(self).actions@ == Seq::<GameAction>::empty(),
            action_views(actions@) == action_views(old(self).actions@) + if crate::tasks::all_complete(
                old(self).statuses@,
            ) {
                seq![ActionView::BeatmapNext, ActionView::SetMenu("main_menu"@)]
            } else {
                Seq::empty()
            },
    {
        let mut actions: Vec<GameAction> = Vec::new();
        std::mem::swap(&mut actions, &mut self.actions);
        let ghost before = action_views(actions@);
        for i in 0..self.statuses.len()
            invariant
                forall|j: int| 0 <= j < i ==> #[trigger] self.statuses@[j].complete,
                action_views(actions@) == before,
                before == action_views(old(self).actions@),
                self.statuses == old(self).statuses,
                self.actions@ == Seq::<GameAction>::empty(),
        {
            if !self.statuses[i].complete {
                assert(!crate::tasks::all_complete(self.statuses@));
                assert(action_views(actions@) =~= before + Seq::<ActionView>::empty());
                return actions;
            }
        }
        actions.push(GameAction::BeatmapNext);
        actions.push(GameAction::SetMenu(String::from_str("main_menu")));
        assert(action_views(actions@) =~= before + seq![ActionView::BeatmapNext, ActionView::SetMenu("main_menu"@)]);
        actions
    }
}

/// What the user panel tells the chat.
#[derive(Debug)]
pub enum UserPanelEvent {
    OpenChat(String),
    AddRemoveFriend(u32),
}

/// The options for an online user, shown when the user is clicked.
#[derive(Clone, Copy, Debug, PartialEq, Eq, Structural)]
pub enum UserOption {
    Spectate(u32),
    SendMessage,
    AddRemoveFriend(u32),
    InviteUser(u32),
    Close,
}

/// Whether a game name is Tataku's (only Tataku users can be spectated).
pub open spec fn is_tataku(game: Seq<char>) -> bool {
    game.len() >= 6 && game.subrange(0, 6) == "Tataku"@
}

/// The panel of online users and the chat.
#[derive(Debug)]
pub struct UserPanel {
    pub selected_channel: Option<ChatChannel>,
}

impl UserPanel {
    /// No chat channel selected.
    pub fn new() -> (p: UserPanel)
        ensures
            p.selected_channel is None,
    {
        UserPanel { selected_channel: None }
    }

    /// The widget's name.
    pub fn name(&self) -> (s: String)
        ensures
            s@ == "user_panel"@,
    {
        String::from_str("user_panel")
    }

    /// The options dialog for a clicked user: spectate (Tataku users only), send a
    /// message, add as a friend, invite to the lobby, close.
    pub fn user_options(user_id: u32, game: &str) -> (d: GenericDialog<UserOption>)
        ensures
            button_texts(d.buttons@) == (if is_tataku(game@) { seq!["Spectate"@] } else { Seq::empty() }) + seq![
                "Send Message"@,
                "Add Friend"@,
                "Invite to Lobby"@,
                "Close"@,
            ],
            d.buttons@.map_values(|b: (String, UserOption)| b.1) == (if is_tataku(game@) {
                seq![UserOption::Spectate(user_id)]
            } else {
                Seq::empty()
            }) + seq![
                UserOption::SendMessage,
                UserOption::AddRemoveFriend(user_id),
                UserOption::InviteUser(user_id),
                UserOption::Close,
            ],
    {
        let mut d: GenericDialog<UserOption> = GenericDialog { buttons: Vec::new() };
        let tataku = game.unicode_len() >= 6 && same_text(game.substring_char(0, 6), "Tataku");
        if tataku {
            d.buttons.push((String::from_str("Spectate"), UserOption::Spectate(user_id)));
        }
        d.buttons.push((String::from_str("Send Message"), UserOption::SendMessage));
        d.buttons.push((String::from_str("Add Friend"), UserOption::AddRemoveFriend(user_id)));
        d.buttons.push((String::from_str("Invite to Lobby"), UserOption::InviteUser(user_id)));
        d.buttons.push((String::from_str("Close"), UserOption::Close));
        assert(button_texts(d.buttons@) =~= (if is_tataku(game@) { seq!["Spectate"@] } else { Seq::empty() }) + seq![
            "Send Message"@,
            "Add Friend"@,
            "Invite to Lobby"@,
            "Close"@,
        ]);
        assert(d.buttons@.map_values(|b: (String, UserOption)| b.1) =~= (if is_tataku(game@) {
            seq![UserOption::Spectate(user_id)]
        } else {
            Seq::empty()
        }) + seq![
            UserOption::SendMessage,
            UserOption::AddRemoveFriend(user_id),
            UserOption::InviteUser(user_id),
            UserOption::Close,
        ]);
        d
    }

    /// What a user option does, for the user with the given name; each closes the dialog.
    pub fn run_option(option: UserOption, username: &String) -> (actions: Vec<GameAction>)
        ensures
            action_views(actions@) == match option {
                UserOption::Spectate(id) => seq![ActionView::Spectate(id), ActionView::CloseDialog],
                UserOption::SendMessage => seq![ActionView::OpenChat(username@), ActionView::CloseDialog],
                UserOption::AddRemoveFriend(id) => seq![ActionView::AddRemoveFriend(id), ActionView::CloseDialog],
                UserOption::InviteUser(id) => seq![ActionView::InviteUser(id), ActionView::CloseDialog],
                UserOption::Close => seq![ActionView::CloseDialog],
            },
    {
        match option {
            UserOption::Spectate(id) => two(GameAction::Spectate(id), GameAction::CloseDialog),
            UserOption::SendMessage => two(GameAction::OpenChat(username.clone()), GameAction::CloseDialog),
            UserOption::AddRemoveFriend(id) => two(GameAction::AddRemoveFriend(id), GameAction::CloseDialog),
            UserOption::InviteUser(id) => two(GameAction::InviteUser(id), GameAction::CloseDialog),
            UserOption::Close => one(GameAction::CloseDialog),
        }
    }

    /// Handles what the panel is told: opening a chat selects the user's (or channel's)
    /// conversation.
    pub fn handle_event(&mut self, event: UserPanelEvent)
        ensures
            match event {
                UserPanelEvent::OpenChat(name) => final(self).selected_channel matches Some(c)
                    && c@ == spec_from_name(name@),
                UserPanelEvent::AddRemoveFriend(_) => *final(self) == *old(self),
            },
    {
        match event {
            UserPanelEvent::OpenChat(name) => {
                self.selected_channel = Some(ChatChannel::from_name(name));
            },
            UserPanelEvent::AddRemoveFriend(_) => {},
        }
    }
}


/// The number of mods in some groups.
pub open spec fn mod_count(groups: Seq<(Seq<char>, Seq<GameplayMod>)>) -> nat
    decreases groups.len(),
{
    if groups.len() == 0 {
        0
    } else {
        mod_count(groups.drop_last()) + groups.last().1.len()
    }
}

/// Changing the mods of one group changes the count by the change in that group.
proof fn lemma_mod_count_update(groups: Seq<(Seq<char>, Seq<GameplayMod>)>, i: int, g: (Seq<char>, Seq<GameplayMod>))
    requires
        0 <= i < groups.len(),
    ensures
        mod_count(groups.update(i, g)) + groups[i].1.len() == mod_count(groups) + g.1.len(),
    decreases groups.len(),
{
    if i == groups.len() - 1 {
        assert(groups.update(i, g).drop_last() =~= groups.drop_last());
    } else {
        lemma_mod_count_update(groups.drop_last(), i, g);
        assert(groups.update(i, g).drop_last() =~= groups.drop_last().update(i, g));
    }
}

/// Merging mod groups loses and duplicates no mod: the merged list holds as many mods as
/// the default groups and the given groups together.
pub proof fn law_merge_keeps_mods(base: Seq<(Seq<char>, Seq<GameplayMod>)>, groups: Seq<(Seq<char>, Seq<GameplayMod>)>)
    ensures
        mod_count(merge_groups(base, groups)) == mod_count(base) + mod_count(groups),
    decreases groups.len(),
{
    if groups.len() > 0 {
        law_merge_keeps_mods(base, groups.drop_last());
        let list = merge_groups(base, groups.drop_last());
        let g = groups.last();
        match list.map_values(|x: (Seq<char>, Seq<GameplayMod>)| x.0).index_of_first(g.0) {
            Some(i) => {
                list.map_values(|x: (Seq<char>, Seq<GameplayMod>)| x.0).index_of_first_ensures(g.0);
                lemma_mod_count_update(list, i, (list[i].0, list[i].1 + g.1));
            },
            None => {
                assert(list.push(g).drop_last() =~= list);
            },
        }
    }
}

} // verus!
