use vstd::prelude::*;
use vstd::string::*;
use crate::text::{decimal, push_decimal, signed_decimal, push_signed_decimal, parse_i64, spec_parse_i64, parse_int_error_message};
use crate::notifications::{Notification, NotificationColor, NotificationOnClick, NotificationView, OnClickView, error_text, ERROR_NOTIFICATION_MS};

verus! {

/// Where a background task is in its life.
#[derive(Clone, Copy, Debug, PartialEq, Eq, Structural)]
pub enum TatakuTaskState {
    NotStarted,
    Running,
    Paused,
    Complete,
}

/// How often a background task runs: the tasks of the game each run once, to their end.
#[derive(Clone, Copy, Debug, PartialEq, Eq, Structural)]
pub enum TatakuTaskType {
    Once,
}

/// Runs one action, primarily used with [`DelayTask`] to run an action after some time.
#[derive(Debug)]
pub struct ActionTask<A> {
    state: TatakuTaskState,
    action: Option<A>,
}

impl<A> ActionTask<A> {
    /// The task's state.
    pub closed spec fn state(&self) -> TatakuTaskState {
        self.state
    }

    /// The action not yet handed out.
    pub closed spec fn pending(&self) -> Option<A> {
        self.action
    }

    /// A task that will hand out `action`.
    pub fn new(action: A) -> (t: ActionTask<A>)
        ensures
            t.state() == TatakuTaskState::NotStarted,
            t.pending() == Some(action),
    {
        ActionTask { action: Some(action), state: TatakuTaskState::NotStarted }
    }

    /// The task's state.
    pub fn get_state(&self) -> (s: TatakuTaskState)
        ensures
            s == self.state(),
    {
        self.state
    }

    /// How often the task runs: once.
    pub fn get_type(&self) -> (t: TatakuTaskType)
        ensures
            t == TatakuTaskType::Once,
    {
        TatakuTaskType::Once
    }

    /// The task's name.
    pub fn get_name(&self) -> (s: &'static str)
        ensures
            s@ == "action_task"@,
    {
        "action_task"
    }

    /// Hands out the action (if it was not handed out yet); the task is then complete.
    pub fn run(&mut self) -> (out: Option<A>)
        ensures
            out == old(self).pending(),
            final(self).pending() is None,
            final(self).state() == TatakuTaskState::Complete,
    {
        if self.state == TatakuTaskState::NotStarted {
            self.state = TatakuTaskState::Running;
        }
        let out = self.action.take();
        if self.action.is_none() {
            self.state = TatakuTaskState::Complete;
        }
        out
    }
}

/// Holds a task back until some time has passed, then hands it out.
#[derive(Debug)]
pub struct DelayTask<T> {
    state: TatakuTaskState,
    /// the task to hand out once the delay has elapsed
    task: Option<T>,
    /// how many ms the task should be delayed
    delay: u64,
    /// game time (ms) at which the task was started
    start_time: u64,
}

impl<T> DelayTask<T> {
    /// The task's state.
    pub closed spec fn state(&self) -> TatakuTaskState {
        self.state
    }

    /// The task not yet handed out.
    pub closed spec fn pending(&self) -> Option<T> {
        self.task
    }

    /// The delay in milliseconds.
    pub closed spec fn delay(&self) -> u64 {
        self.delay
    }

    /// The game time at which the delay started.
    pub closed spec fn start_time(&self) -> u64 {
        self.start_time
    }

    /// Delays `task` by `delay` milliseconds.
    pub fn new(task: T, delay: u64) -> (t: DelayTask<T>)
        ensures
            t.state() == TatakuTaskState::NotStarted,
            t.pending() == Some(task),
            t.delay() == delay,
            t.start_time() == 0,
    {
        DelayTask { state: TatakuTaskState::NotStarted, task: Some(task), delay, start_time: 0 }
    }

    /// Delays a boxed `task` by `delay` milliseconds.
    pub fn new_from_boxed(task: Box<T>, delay: u64) -> (t: DelayTask<T>)
        ensures
            t.state() == TatakuTaskState::NotStarted,
            t.pending() == Some(*task),
            t.delay() == delay,
            t.start_time() == 0,
    {
        Self::new(*task, delay)
    }

    /// The task's state.
    pub fn get_state(&self) -> (s: TatakuTaskState)
        ensures
            s == self.state(),
    {
        self.state
    }

    /// How often the task runs: once.
    pub fn get_type(&self) -> (t: TatakuTaskType)
        ensures
            t == TatakuTaskType::Once,
    {
        TatakuTaskType::Once
    }

    /// The task's name: `"Delayed ({name})"` while the delayed task (named `pending_name`)
    /// waits, `"Delayed (Fulfilled)"` once it was handed out.
    pub fn get_name(&self, pending_name: &str) -> (s: String)
        ensures
            s@ == if self.pending() is Some { "Delayed ("@ + pending_name@ + ")"@ } else { "Delayed (Fulfilled)"@ },
    {
        if self.task.is_some() {
            let mut s = String::from_str("Delayed (");
            s.append(pending_name);
            s.append(")");
            s
        } else {
            String::from_str("Delayed (Fulfilled)")
        }
    }

    /// One step at game time `game_time` (ms). The first step starts the clock; a later
    /// step at least `delay` ms after the start completes the task and hands out the
    /// delayed task. Game time never runs backwards.
    pub fn run(&mut self, game_time: u64) -> (released: Option<T>)
        requires
            old(self).state() != TatakuTaskState::NotStarted ==> old(self).start_time() <= game_time,
        ensures
            final(self).delay() == old(self).delay(),
            if old(self).state() == TatakuTaskState::NotStarted {
                &&& final(self).state() == TatakuTaskState::Running
                &&& final(self).start_time() == game_time
                &&& final(self).pending() == old(self).pending()
                &&& released is None
            } else if game_time - old(self).start_time() >= old(self).delay() {
                &&& final(self).state() == TatakuTaskState::Complete
                &&& final(self).start_time() == old(self).start_time()
                &&& final(self).pending() is None
                &&& released == old(self).pending()
            } else {
                &&& final(self).state() == old(self).state()
                &&& final(self).start_time() == old(self).start_time()
                &&& final(self).pending() == old(self).pending()
                &&& released is None
            },
    {
        if self.state == TatakuTaskState::NotStarted {
            self.start_time = game_time;
            self.state = TatakuTaskState::Running;
            return None;
        }
        if game_time - self.start_time >= self.delay {
            self.state = TatakuTaskState::Complete;
            return self.task.take();
        }
        None
    }
}

/// Progress of one loading stage, shown on the loading screen.
#[derive(Debug)]
pub struct LoadingStatus {
    pub name: String,
    pub item_count: usize,
    pub items_complete: usize,
    pub complete: bool,
    pub error: Option<String>,
    pub custom_message: String,
}

/// Whether a loading status is a fresh status with the given name.
pub open spec fn fresh_status(s: LoadingStatus, name: Seq<char>) -> bool {
    &&& s.name@ == name
    &&& s.item_count == 0
    &&& s.items_complete == 0
    &&& !s.complete
    &&& s.error is None
    &&& s.custom_message@.len() == 0
}

impl LoadingStatus {
    /// A stage with nothing done yet.
    pub fn new(name: String) -> (s: LoadingStatus)
        ensures
            fresh_status(s, name@),
    {
        LoadingStatus {
            name,
            item_count: 0,
            items_complete: 0,
            complete: false,
            error: None,
            custom_message: String::new(),
        }
    }
}

/// Whether every loading status is complete.
pub open spec fn all_complete(s: Seq<LoadingStatus>) -> bool {
    forall|i: int| 0 <= i < s.len() ==> #[trigger] s[i].complete
}

/// What starting up the game asks of the game.
#[derive(Clone, Copy, Debug, PartialEq, Eq, Structural)]
pub enum InitGameAction {
    /// load the fonts
    PreloadFonts,
    /// start loading beatmaps, reporting to the status at this index
    LoadBeatmaps { status_index: usize },
    /// select the next beatmap
    NextBeatmap,
    /// go to the main menu
    OpenMainMenu,
}

/// The actions of one step of the start-up task.
pub open spec fn init_actions(started_now: bool, done: bool) -> Seq<InitGameAction> {
    (if started_now {
        seq![InitGameAction::PreloadFonts, InitGameAction::LoadBeatmaps { status_index: 0 }]
    } else {
        Seq::empty()
    }) + (if done {
        seq![InitGameAction::NextBeatmap, InitGameAction::OpenMainMenu]
    } else {
        Seq::empty()
    })
}

/// Starts the game up: loads fonts and beatmaps, then goes to the main menu once every
/// loading stage is complete.
#[derive(Debug)]
pub struct InitGameTask {
    state: TatakuTaskState,
}

impl InitGameTask {
    /// The task's state.
    pub closed spec fn state(&self) -> TatakuTaskState {
        self.state
    }

    /// A task that has not started.
    pub fn new() -> (t: InitGameTask)
        ensures
            t.state() == TatakuTaskState::NotStarted,
    {
        InitGameTask { state: TatakuTaskState::NotStarted }
    }

    /// The task's state.
    pub fn get_state(&self) -> (s: TatakuTaskState)
        ensures
            s == self.state(),
    {
        self.state
    }

    /// How often the task runs: once.
    pub fn get_type(&self) -> (t: TatakuTaskType)
        ensures
            t == TatakuTaskType::Once,
    {
        TatakuTaskType::Once
    }

    /// The task's name.
    pub fn get_name(&self) -> (s: &'static str)
        ensures
            s@ == "Initialize Game"@,
    {
        "Initialize Game"
    }

    /// One step. The first step adds a "Loading beatmaps" status and asks for the fonts
    /// and the beatmaps to be loaded; any step after which every status is complete
    /// completes the task and moves on to the main menu.
    pub fn run(&mut self, statuses: &mut Vec<LoadingStatus>) -> (actions: Vec<InitGameAction>)
        ensures
            ({
                let started_now = old(self).state() == TatakuTaskState::NotStarted;
                let done = all_complete(final(statuses)@);
                &&& if started_now {
                        &&& final(statuses)@.len() == old(statuses)@.len() + 1
                        &&& final(statuses)@.take(old(statuses)@.len() as int) == old(statuses)@
                        &&& fresh_status(final(statuses)@.last(), "Loading beatmaps"@)
                    } else {
                        final(statuses)@ == old(statuses)@
                    }
                &&& actions@ == init_actions(started_now, done)
                &&& final(self).state() == if done {
                        TatakuTaskState::Complete
                    } else if started_now {
                        TatakuTaskState::Running
                    } else {
                        old(self).state()
                    }
            }),
    {
        let mut actions: Vec<InitGameAction> = Vec::new();
        let started_now = self.state == TatakuTaskState::NotStarted;
        if started_now {
            self.state = TatakuTaskState::Running;
            actions.push(InitGameAction::PreloadFonts);
            statuses.push(LoadingStatus::new(String::from_str("Loading beatmaps")));
            actions.push(InitGameAction::LoadBeatmaps { status_index: 0 });
            assert(statuses@.take(old(statuses)@.len() as int) =~= old(statuses)@);
        }
        let mut done = true;
        let mut i: usize = 0;
        while i < statuses.len()
            invariant
                i <= statuses@.len(),
                done == (forall|j: int| 0 <= j < i ==> #[trigger] statuses@[j].complete),
            decreases statuses@.len() - i,
        {
            if !statuses[i].complete {
                done = false;
            }
            i += 1;
        }
        if done {
            self.state = TatakuTaskState::Complete;
            actions.push(InitGameAction::NextBeatmap);
            actions.push(InitGameAction::OpenMainMenu);
        }
        assert(actions@ =~= init_actions(started_now, done));
        actions
    }
}

/// What loading beatmaps asks of the game next.
#[derive(Debug)]
pub enum LoadStep<M> {
    /// read the ignored paths and the known beatmaps from the database, then call `start`
    LoadDatabase,
    /// add this map if its file still exists
    Check(M),
    /// every map was handled: initialize the beatmap manager and check the beatmap folders
    Finished,
}

/// Loads the beatmaps known to the database, one per step.
#[derive(Debug)]
pub struct LoadBeatmapsTask<M> {
    state: TatakuTaskState,
    status_index: usize,
    /// list of ignored file paths
    ignored_list: Vec<String>,
    /// maps loaded from the database, not yet handed out
    existing_maps: Vec<M>,
}

impl<M> LoadBeatmapsTask<M> {
    /// The task's state.
    pub closed spec fn state(&self) -> TatakuTaskState {
        self.state
    }

    /// The maps not handed out yet (the last one goes first).
    pub closed spec fn remaining(&self) -> Seq<M> {
        self.existing_maps@
    }

    /// Which loading status the task works on, by position.
    pub closed spec fn status_index(&self) -> usize {
        self.status_index
    }

    /// A task updating the loading status at `status_index`.
    pub fn new(status_index: usize) -> (t: LoadBeatmapsTask<M>)
        ensures
            t.state() == TatakuTaskState::NotStarted,
            t.remaining().len() == 0,
            t.status_index() == status_index,
    {
        LoadBeatmapsTask {
            state: TatakuTaskState::NotStarted,
            status_index,
            ignored_list: Vec::new(),
            existing_maps: Vec::new(),
        }
    }

    /// The task's state.
    pub fn get_state(&self) -> (s: TatakuTaskState)
        ensures
            s == self.state(),
    {
        self.state
    }

    /// How often the task runs: once.
    pub fn get_type(&self) -> (t: TatakuTaskType)
        ensures
            t == TatakuTaskType::Once,
    {
        TatakuTaskType::Once
    }

    /// The task's name.
    pub fn get_name(&self) -> (s: &'static str)
        ensures
            s@ == "Load Beatmap Task"@,
    {
        "Load Beatmap Task"
    }

    /// Which loading status the task works on, by position.
    pub fn get_status_index(&self) -> (i: usize)
        ensures
            i == self.status_index(),
    {
        self.status_index
    }

    /// Takes what the database holds: the status counts every map, and the task runs.
    pub fn start(&mut self, ignored: Vec<String>, maps: Vec<M>, status: &mut LoadingStatus)
        ensures
            final(self).state() == TatakuTaskState::Running,
            final(self).remaining() == maps@,
            final(self).status_index() == old(self).status_index(),
            final(status).item_count == maps@.len(),
            final(status).items_complete == old(status).items_complete,
            final(status).complete == old(status).complete,
    {
        self.ignored_list = ignored;
        status.item_count = maps.len();
        self.existing_maps = maps;
        self.state = TatakuTaskState::Running;
    }

    /// One step: asks for the database first, then hands out one map per step (counting it
    /// as done), and finally completes.
    pub fn run(&mut self, status: &mut LoadingStatus) -> (step: LoadStep<M>)
        requires
            old(status).items_complete < usize::MAX,
        ensures
            final(self).status_index() == old(self).status_index(),
            if old(self).state() == TatakuTaskState::NotStarted {
                &&& step is LoadDatabase
                &&& *final(self) == *old(self)
                &&& *final(status) == *old(status)
            } else if old(self).remaining().len() > 0 {
                &&& step == LoadStep::Check(old(self).remaining().last())
                &&& final(self).remaining() == old(self).remaining().drop_last()
                &&& final(self).state() == old(self).state()
                &&& final(status).items_complete == old(status).items_complete + 1
                &&& final(status).complete == old(status).complete
                &&& final(status).item_count == old(status).item_count
            } else {
                &&& step is Finished
                &&& final(self).remaining().len() == 0
                &&& final(self).state() == TatakuTaskState::Complete
                &&& final(status).complete
                &&& final(status).items_complete == old(status).items_complete
                &&& final(status).item_count == old(status).item_count
            },
    {
        if self.state == TatakuTaskState::NotStarted {
            return LoadStep::LoadDatabase;
        }
        if let Some(map) = self.existing_maps.pop() {
            status.items_complete += 1;
            return LoadStep::Check(map);
        }
        status.complete = true;
        self.state = TatakuTaskState::Complete;
        LoadStep::Finished
    }
}

/// The folder a file lies in, as `std::path::Path::parent` gives it (`None` for a root or
/// an empty path).
pub uninterp spec fn path_parent(path: Seq<char>) -> Option<Seq<char>>;

/// The folder a file path lies in, through `std::path::Path::parent`, converted to a
/// string lossily. The contract says that the result is what `path_parent` names for the
/// path; what that is for a given path is not stated.
#[verifier::external_body]
fn parent_dir(path: &str) -> (r: Option<String>)
    ensures
        match r {
            Some(p) => path_parent(path@) == Some(p@),
            None => path_parent(path@) is None,
        },
{
    std::path::Path::new(path).parent().map(|p| p.to_string_lossy().to_string())
}

/// Whether a list of strings holds a string with this value.
pub open spec fn holds(list: Seq<String>, s: Seq<char>) -> bool {
    exists|i: int| 0 <= i < list.len() && #[trigger] list[i]@ == s
}

/// Whether `s` is among the strings of `list`.
pub fn contains_string(list: &Vec<String>, s: &String) -> (b: bool)
    ensures
        b == holds(list@, s@),
{
    for i in 0..list.len()
        invariant
            forall|j: int| 0 <= j < i ==> #[trigger] list@[j]@ != s@,
    {
        if list[i].eq(s) {
            assert(list@[i as int]@ == s@);
            return true;
        }
    }
    false
}

/// Whether some map path has `folder` as its parent.
pub open spec fn is_known_folder(map_paths: Seq<String>, folder: Seq<char>) -> bool {
    exists|i: int| 0 <= i < map_paths.len() && path_parent(#[trigger] map_paths[i]@) == Some(folder)
}

/// Looks for beatmaps in the beatmap folders that no known beatmap lies in.
#[derive(Debug)]
pub struct CheckBeatmapFoldersTask {
    state: TatakuTaskState,
    /// folders that hold a known beatmap
    existing_paths: Vec<String>,
    /// folders still to check (the last one goes first)
    folders: Vec<String>,
}

impl CheckBeatmapFoldersTask {
    /// The task's state.
    pub closed spec fn state(&self) -> TatakuTaskState {
        self.state
    }

    /// The folders still to check.
    pub closed spec fn pending_folders(&self) -> Seq<String> {
        self.folders@
    }

    /// The folders known to hold maps.
    pub closed spec fn known(&self) -> Seq<String> {
        self.existing_paths@
    }

    /// A task that has not started: no folders known or to check.
    pub fn new() -> (t: CheckBeatmapFoldersTask)
        ensures
            t.state() == TatakuTaskState::NotStarted,
            t.pending_folders().len() == 0,
            t.known().len() == 0,
    {
        CheckBeatmapFoldersTask {
            state: TatakuTaskState::NotStarted,
            existing_paths: Vec::new(),
            folders: Vec::new(),
        }
    }

    /// The task's state.
    pub fn get_state(&self) -> (s: TatakuTaskState)
        ensures
            s == self.state(),
    {
        self.state
    }

    /// How often the task runs: once.
    pub fn get_type(&self) -> (t: TatakuTaskType)
        ensures
            t == TatakuTaskType::Once,
    {
        TatakuTaskType::Once
    }

    /// The task's name.
    pub fn get_name(&self) -> (s: &'static str)
        ensures
            s@ == "Check Beatmap Folders"@,
    {
        "Check Beatmap Folders"
    }

    /// The folders the known maps lie in, each once.
    pub fn known_folders(map_paths: &Vec<String>) -> (existing: Vec<String>)
        ensures
            forall|s: Seq<char>| holds(existing@, s) <==> is_known_folder(map_paths@, s),
    {
        let mut existing: Vec<String> = Vec::new();
        for i in 0..map_paths.len()
            invariant
                forall|s: Seq<char>| holds(existing@, s) <==>
                    exists|j: int| 0 <= j < i && path_parent(#[trigger] map_paths@[j]@) == Some(s),
        {
            if let Some(parent) = parent_dir(map_paths[i].as_str()) {
                if !contains_string(&existing, &parent) {
                    let ghost before = existing@;
                    existing.push(parent);
                    assert forall|s: Seq<char>| holds(existing@, s) implies
                        exists|j: int| 0 <= j < i + 1 && path_parent(#[trigger] map_paths@[j]@) == Some(s) by {
                        let k = choose|k: int| 0 <= k < existing@.len() && #[trigger] existing@[k]@ == s;
                        if k < before.len() {
                            assert(holds(before, s));
                        }
                    }
                    assert forall|s: Seq<char>| (exists|j: int| 0 <= j < i + 1 && path_parent(#[trigger] map_paths@[j]@) == Some(s)) implies holds(existing@, s) by {
                        let j = choose|j: int| 0 <= j < i + 1 && path_parent(#[trigger] map_paths@[j]@) == Some(s);
                        if j < i {
                            assert(holds(before, s));
                            let k = choose|k: int| 0 <= k < before.len() && #[trigger] before[k]@ == s;
                            assert(existing@[k]@ == s);
                        } else {
                            assert(existing@[existing@.len() - 1]@ == s);
                        }
                    }
                } else {
                    assert forall|s: Seq<char>| (exists|j: int| 0 <= j < i + 1 && path_parent(#[trigger] map_paths@[j]@) == Some(s)) implies holds(existing@, s) by {
                        let j = choose|j: int| 0 <= j < i + 1 && path_parent(#[trigger] map_paths@[j]@) == Some(s);
                        if j < i {
                        } else {
                            assert(s == parent@);
                        }
                    }
                }
            } else {
                assert forall|s: Seq<char>| (exists|j: int| 0 <= j < i + 1 && path_parent(#[trigger] map_paths@[j]@) == Some(s)) implies holds(existing@, s) by {
                    let j = choose|j: int| 0 <= j < i + 1 && path_parent(#[trigger] map_paths@[j]@) == Some(s);
                    if j == i {
                        assert(path_parent(map_paths@[i as int]@) is None);
                    }
                }
            }
        }
        existing
    }

    /// Starts the task with the folders that hold known maps: of the candidate folders,
    /// keeps (in order) those that are not among them.
    pub fn start_with_known(&mut self, existing: Vec<String>, folders: Vec<String>)
        ensures
            final(self).state() == TatakuTaskState::Running,
            final(self).known() == existing@,
            forall|i: int| 0 <= i < final(self).pending_folders().len()
                ==> !holds(existing@, #[trigger] final(self).pending_folders()[i]@),
            final(self).pending_folders().map_values(|f: String| f@)
                == folders@.map_values(|f: String| f@).filter(|f: Seq<char>| !holds(existing@, f)),
    {
        let ghost fviews = folders@.map_values(|f: String| f@);
        let ghost keep = |f: Seq<char>| !holds(existing@, f);
        let mut kept: Vec<String> = Vec::new();
        let n = folders.len();
        for f in it: folders
            invariant
                n == fviews.len(),
                it.seq() == folders@,
                fviews == folders@.map_values(|f: String| f@),
                keep == (|f: Seq<char>| !holds(existing@, f)),
                kept@.map_values(|f: String| f@) == fviews.take(it.index() as int).filter(keep),
                forall|k: int| 0 <= k < kept@.len() ==> !holds(existing@, #[trigger] kept@[k]@),
        {
            let ghost i = it.index();
            proof { reveal(Seq::filter); }
            assert(fviews.take(i + 1).drop_last() =~= fviews.take(i as int));
            assert(f@ == fviews[i as int]);
            let ghost before = kept@;
            if !contains_string(&existing, &f) {
                kept.push(f);
                assert(kept@.map_values(|f: String| f@) =~= before.map_values(|f: String| f@).push(fviews[i as int]));
            }
        }
        assert(fviews.take(n as int) =~= fviews);
        self.existing_paths = existing;
        self.folders = kept;
        self.state = TatakuTaskState::Running;
    }

    /// Starts the task: of the candidate folders, keeps (in order) those that no known map
    /// lies in.
    pub fn start(&mut self, map_paths: &Vec<String>, folders: Vec<String>)
        ensures
            final(self).state() == TatakuTaskState::Running,
            forall|i: int| 0 <= i < final(self).pending_folders().len()
                ==> !is_known_folder(map_paths@, #[trigger] final(self).pending_folders()[i]@),
            final(self).pending_folders().map_values(|f: String| f@)
                == folders@.map_values(|f: String| f@).filter(|f: Seq<char>| !is_known_folder(map_paths@, f)),
    {
        let existing = Self::known_folders(map_paths);
        let ghost e = existing@;
        self.start_with_known(existing, folders);
        proof {
            let a = |f: Seq<char>| !holds(e, f);
            let b = |f: Seq<char>| !is_known_folder(map_paths@, f);
            assert(a =~= b);
            assert forall|i: int| 0 <= i < self.pending_folders().len()
                implies !is_known_folder(map_paths@, #[trigger] self.pending_folders()[i]@) by {
                assert(!holds(e, self.pending_folders()[i]@));
            }
        }
    }

    /// One step after starting: hands out the next folder to check, or completes the task
    /// when none is left.
    pub fn next_folder(&mut self) -> (f: Option<String>)
        ensures
            match f {
                Some(f) => old(self).pending_folders().len() > 0
                    && f == old(self).pending_folders().last()
                    && final(self).pending_folders() == old(self).pending_folders().drop_last()
                    && final(self).state() == old(self).state(),
                None => old(self).pending_folders().len() == 0
                    && final(self).pending_folders().len() == 0
                    && final(self).state() == TatakuTaskState::Complete,
            },
    {
        match self.folders.pop() {
            Some(f) => Some(f),
            None => {
                self.state = TatakuTaskState::Complete;
                None
            },
        }
    }
}

/// The account and server used for uploads.
#[derive(Debug)]
pub struct ServerSettings {
    pub username: String,
    pub password: String,
    pub score_url: String,
}

/// Which beatmap a submitted score is for.
#[derive(Debug)]
pub struct ScoreMapInfo {
    /// the game the beatmap comes from
    pub game: String,
    pub map_hash: u128,
    pub playmode: String,
}

/// What is sent to the score server.
#[derive(Debug)]
pub struct ScoreSubmit<S> {
    pub username: String,
    pub password: String,
    pub game: String,
    pub score: S,
    pub map_info: ScoreMapInfo,
}

/// Why a score was not submitted.
#[derive(Debug)]
pub enum NotSubmittedReason {
    InternalError,
    NoUser,
    UserBanned,
    MapNotFound,
    GameNotAccepted,
    Other(String),
}

/// The score server's answer to a submission.
#[derive(Debug)]
pub enum SubmitResponse {
    Submitted {
        score_id: u64,
        placing: u32,
        /// the performance rating, as the bit pattern of the server's 32-bit float
        performance_rating_bits: u32,
    },
    NotSubmitted(NotSubmittedReason, String),
}

/// The result of a score submission, shown on the score screen.
#[derive(Clone, Copy, Debug, PartialEq, Eq, Structural)]
pub struct ScoreSubmitResponse {
    pub completed: bool,
    pub score_id: u64,
    pub placing: u32,
    /// the performance rating, as the bit pattern of a 32-bit float
    pub performance_rating_bits: u32,
}

impl ScoreSubmitResponse {
    /// Nothing received yet.
    pub fn new() -> (r: ScoreSubmitResponse)
        ensures
            r == (ScoreSubmitResponse { completed: false, score_id: 0, placing: 0, performance_rating_bits: 0 }),
    {
        ScoreSubmitResponse { completed: false, score_id: 0, placing: 0, performance_rating_bits: 0 }
    }
}

/// The value path under which the n-th score submission reports its result.
pub open spec fn score_submit_path(n: u16) -> Seq<char> {
    "var.score_submits."@ + decimal(n as nat)
}

/// Score submissions with different numbers report under different value paths, so the
/// paths of successive submissions (the counter moves on by one each time) never collide.
pub proof fn law_score_submit_paths_distinct(a: u16, b: u16)
    requires
        a != b,
    ensures
        score_submit_path(a) != score_submit_path(b),
{
    let p = "var.score_submits."@;
    if score_submit_path(a) == score_submit_path(b) {
        let sa = score_submit_path(a);
        let sb = score_submit_path(b);
        assert(sa.subrange(p.len() as int, sa.len() as int) =~= decimal(a as nat));
        assert(sb.subrange(p.len() as int, sb.len() as int) =~= decimal(b as nat));
        crate::text::lemma_decimal_injective(a as nat, b as nat);
    }
}

/// The path of the next score submission; the counter moves on by one.
pub fn next_score_submit_path(counter: &mut u16) -> (path: String)
    requires
        *old(counter) < u16::MAX,
    ensures
        path@ == score_submit_path(*old(counter)),
        *final(counter) == *old(counter) + 1,
{
    let mut path = String::from_str("var.score_submits.");
    push_decimal(&mut path, *counter as u64);
    *counter = *counter + 1;
    path
}

/// The answer given without contacting the server when no account is set up.
pub open spec fn no_user_response(username: Seq<char>, password: Seq<char>) -> bool {
    username.len() == 0 || password.len() == 0
}

/// Refuses a submission without a username or password, before anything is sent.
pub fn check_credentials<S>(submit: &ScoreSubmit<S>) -> (r: Option<SubmitResponse>)
    ensures
        match r {
            Some(SubmitResponse::NotSubmitted(NotSubmittedReason::NoUser, msg)) =>
                no_user_response(submit.username@, submit.password@)
                && msg@ == "No user/password in settings"@,
            Some(_) => false,
            None => !no_user_response(submit.username@, submit.password@),
        },
{
    if submit.username.unicode_len() == 0 || submit.password.unicode_len() == 0 {
        Some(SubmitResponse::NotSubmitted(
            NotSubmittedReason::NoUser,
            String::from_str("No user/password in settings"),
        ))
    } else {
        None
    }
}

/// Uploads a score and reports the server's answer under its own value path.
#[derive(Debug)]
pub struct UploadScoreTask<S> {
    state: TatakuTaskState,
    submit: ScoreSubmit<S>,
    score_url: String,
    path: String,
}

impl<S> UploadScoreTask<S> {
    /// The task's state.
    pub closed spec fn state(&self) -> TatakuTaskState {
        self.state
    }

    /// What will be sent.
    pub closed spec fn submit(&self) -> ScoreSubmit<S> {
        self.submit
    }

    /// The score server's base url.
    pub closed spec fn score_url(&self) -> Seq<char> {
        self.score_url@
    }

    /// The value path of this submission's result.
    pub closed spec fn path(&self) -> Seq<char> {
        self.path@
    }

    /// A submission of `score` for the given beatmap, from the account in `settings`;
    /// `counter` numbers the submissions of this run of the game.
    pub fn new(
        score: S,
        map_hash: u128,
        playmode: String,
        beatmap_game: String,
        settings: &ServerSettings,
        counter: &mut u16,
    ) -> (t: UploadScoreTask<S>)
        requires
            *old(counter) < u16::MAX,
        ensures
            t.state() == TatakuTaskState::NotStarted,
            t.submit().username@ == settings.username@,
            t.submit().password@ == settings.password@,
            t.submit().game@ == "tataku"@,
            t.submit().score == score,
            t.submit().map_info.game == beatmap_game,
            t.submit().map_info.map_hash == map_hash,
            t.submit().map_info.playmode == playmode,
            t.score_url() == settings.score_url@,
            t.path() == score_submit_path(*old(counter)),
            *final(counter) == *old(counter) + 1,
    {
        let path = next_score_submit_path(counter);
        UploadScoreTask {
            state: TatakuTaskState::NotStarted,
            submit: ScoreSubmit {
                username: settings.username.clone(),
                password: settings.password.clone(),
                game: String::from_str("tataku"),
                map_info: ScoreMapInfo { game: beatmap_game, map_hash, playmode },
                score,
            },
            score_url: settings.score_url.clone(),
            path,
        }
    }

    /// The url the score is posted to: `"{score_url}/score_submit"`.
    pub fn submit_url(&self) -> (u: String)
        ensures
            u@ == self.score_url() + "/score_submit"@,
    {
        let mut u = self.score_url.clone();
        u.append("/score_submit");
        u
    }

    /// The value path of this submission's result.
    pub fn get_path(&self) -> (p: &str)
        ensures
            p@ == self.path(),
    {
        self.path.as_str()
    }

    /// The task's state.
    pub fn get_state(&self) -> (s: TatakuTaskState)
        ensures
            s == self.state(),
    {
        self.state
    }

    /// How often the task runs: once.
    pub fn get_type(&self) -> (t: TatakuTaskType)
        ensures
            t == TatakuTaskType::Once,
    {
        TatakuTaskType::Once
    }

    /// The task's name.
    pub fn get_name(&self) -> (s: &'static str)
        ensures
            s@ == "Upload Score"@,
    {
        "Upload Score"
    }

    /// What will be sent, to hand to the uploader.
    pub fn submission(&self) -> (s: &ScoreSubmit<S>)
        ensures
            *s == self.submit(),
    {
        &self.submit
    }

    /// Starts the upload: the task runs, and the result slot to store under the path is
    /// returned empty.
    pub fn begin(&mut self) -> (slot: ScoreSubmitResponse)
        ensures
            final(self).state() == TatakuTaskState::Running,
            final(self).submit() == old(self).submit(),
            final(self).path() == old(self).path(),
            !slot.completed,
    {
        self.state = TatakuTaskState::Running;
        ScoreSubmitResponse::new()
    }

    /// Takes the server's answer: the slot is filled (a refusal only marks it completed and
    /// is reported by a notification) and the task completes.
    pub fn finish(&mut self, received: SubmitResponse, slot: &mut ScoreSubmitResponse) -> (n: Option<Notification>)
        ensures
            final(self).state() == TatakuTaskState::Complete,
            final(slot).completed,
            match received {
                SubmitResponse::Submitted { score_id, placing, performance_rating_bits } => {
                    &&& n is None
                    &&& final(slot).score_id == score_id
                    &&& final(slot).placing == placing
                    &&& final(slot).performance_rating_bits == performance_rating_bits
                },
                SubmitResponse::NotSubmitted(_, msg) => {
                    &&& n matches Some(n) && n@ == (NotificationView {
                        text: error_text("Error submitting score"@, msg@),
                        color: NotificationColor::Red,
                        duration_ms: ERROR_NOTIFICATION_MS,
                        onclick: OnClickView::Nothing,
                    })
                    &&& final(slot).score_id == old(slot).score_id
                    &&& final(slot).placing == old(slot).placing
                    &&& final(slot).performance_rating_bits == old(slot).performance_rating_bits
                },
            },
    {
        let n = match received {
            SubmitResponse::Submitted { score_id, placing, performance_rating_bits } => {
                slot.completed = true;
                slot.score_id = score_id;
                slot.placing = placing;
                slot.performance_rating_bits = performance_rating_bits;
                None
            },
            SubmitResponse::NotSubmitted(_reason, msg) => {
                slot.completed = true;
                Some(Notification::new_error("Error submitting score", msg.as_str()))
            },
        };
        self.state = TatakuTaskState::Complete;
        n
    }
}

/// Where an upload to the score server failed.
#[derive(Clone, Copy, Debug, PartialEq, Eq, Structural)]
pub enum UploadFailure {
    /// the data could not be read or encoded
    Prepare,
    /// the request could not be sent
    Send,
    /// the answer could not be read
    ReadAnswer,
}

/// The message of the internal error recorded when a score upload fails at some point;
/// `error` is the error's message (shown when sending failed).
pub open spec fn score_upload_failure(failure: UploadFailure, error: Seq<char>) -> Seq<char> {
    match failure {
        UploadFailure::Prepare => "Error serializing replay"@,
        UploadFailure::Send => "error submitting score: "@ + error,
        UploadFailure::ReadAnswer => "Error reading server response"@,
    }
}

/// The answer recorded when a score upload fails.
pub fn score_upload_failed(failure: UploadFailure, error: &str) -> (r: SubmitResponse)
    ensures
        r matches SubmitResponse::NotSubmitted(NotSubmittedReason::InternalError, msg)
            && msg@ == score_upload_failure(failure, error@),
{
    let msg = match failure {
        UploadFailure::Prepare => String::from_str("Error serializing replay"),
        UploadFailure::Send => {
            let mut m = String::from_str("error submitting score: ");
            m.append(error);
            m
        },
        UploadFailure::ReadAnswer => String::from_str("Error reading server response"),
    };
    SubmitResponse::NotSubmitted(NotSubmittedReason::InternalError, msg)
}

/// The title of the error notification for a screenshot upload that failed at some point.
pub open spec fn screenshot_failure_title(failure: UploadFailure) -> Seq<char> {
    match failure {
        UploadFailure::Prepare => "Error loading screenshot to send to server"@,
        UploadFailure::Send => "Error sending screenshot request"@,
        UploadFailure::ReadAnswer => "Error reading screenshot response"@,
    }
}

/// The error notification for a screenshot upload that failed; `error` is the error's
/// message.
pub fn screenshot_upload_failed(failure: UploadFailure, error: &str) -> (n: Notification)
    ensures
        n@ == (NotificationView {
            text: error_text(screenshot_failure_title(failure), error@),
            color: NotificationColor::Red,
            duration_ms: ERROR_NOTIFICATION_MS,
            onclick: OnClickView::Nothing,
        }),
{
    match failure {
        UploadFailure::Prepare => Notification::new_error("Error loading screenshot to send to server", error),
        UploadFailure::Send => Notification::new_error("Error sending screenshot request", error),
        UploadFailure::ReadAnswer => Notification::new_error("Error reading screenshot response", error),
    }
}

/// `"{score_url}/screenshots?username={username}&password={password}"`.
pub open spec fn screenshot_upload_url(score_url: Seq<char>, username: Seq<char>, password: Seq<char>) -> Seq<char> {
    score_url + "/screenshots?username="@ + username + "&password="@ + password
}

/// `"{score_url}/screenshots/{id}"`.
pub open spec fn screenshot_link(score_url: Seq<char>, id: i64) -> Seq<char> {
    score_url + "/screenshots/"@ + signed_decimal(id as int)
}

/// The url a screenshot is uploaded to.
pub fn upload_url(settings: &ServerSettings) -> (u: String)
    ensures
        u@ == screenshot_upload_url(settings.score_url@, settings.username@, settings.password@),
{
    let mut u = settings.score_url.clone();
    u.append("/screenshots?username=");
    u.append(settings.username.as_str());
    u.append("&password=");
    u.append(settings.password.as_str());
    u
}

/// Turns the parsed answer to a screenshot upload into the link to the stored screenshot,
/// or, for an answer that did not parse (with the parser's message), the error
/// notification.
pub fn screenshot_link_for(score_url: &str, parsed: Result<i64, String>) -> (r: Result<String, Notification>)
    ensures
        match parsed {
            Ok(id) => r matches Ok(link) && link@ == screenshot_link(score_url@, id),
            Err(msg) => r matches Err(n) && n@ == (NotificationView {
                text: error_text("Error parsing screenshot id"@, msg@),
                color: NotificationColor::Red,
                duration_ms: ERROR_NOTIFICATION_MS,
                onclick: OnClickView::Nothing,
            }),
        },
{
    match parsed {
        Ok(id) => {
            let mut link = String::from_str(score_url);
            link.append("/screenshots/");
            push_signed_decimal(&mut link, id);
            Ok(link)
        },
        Err(msg) => Err(Notification::new_error("Error parsing screenshot id", msg.as_str())),
    }
}

/// Reads the server's answer to a screenshot upload: the id of the stored screenshot,
/// turned into its link; an answer that is no id gives an error notification.
pub fn screenshot_result(score_url: &str, response: &str) -> (r: Result<String, Notification>)
    ensures
        match r {
            Ok(link) => (spec_parse_i64(response@) matches Some(id) && link@ == screenshot_link(score_url@, id)),
            Err(n) => spec_parse_i64(response@) is None && n@ == (NotificationView {
                text: error_text("Error parsing screenshot id"@, parse_int_error_message(response@)),
                color: NotificationColor::Red,
                duration_ms: ERROR_NOTIFICATION_MS,
                onclick: OnClickView::Nothing,
            }),
        },
{
    screenshot_link_for(score_url, parse_i64(response))
}

/// What the screenshot upload asks of the game when it finishes.
#[derive(Debug)]
pub enum ScreenshotAction {
    Notify(Notification),
    CopyToClipboard(String),
}

/// `"Screenshot uploaded {url}"`.
pub open spec fn uploaded_text(url: Seq<char>) -> Seq<char> {
    "Screenshot uploaded "@ + url
}

/// Uploads a screenshot and puts its link on the clipboard.
#[derive(Debug)]
pub struct UploadScreenshotTask {
    state: TatakuTaskState,
    screenshot_path: String,
    started: bool,
}

impl UploadScreenshotTask {
    /// The task's state.
    pub closed spec fn state(&self) -> TatakuTaskState {
        self.state
    }

    /// Whether the upload was started.
    pub closed spec fn started(&self) -> bool {
        self.started
    }

    /// The file to upload.
    pub closed spec fn screenshot_path(&self) -> Seq<char> {
        self.screenshot_path@
    }

    /// A task that uploads the screenshot at `screenshot_path`.
    pub fn new(screenshot_path: String) -> (t: UploadScreenshotTask)
        ensures
            t.state() == TatakuTaskState::NotStarted,
            !t.started(),
            t.screenshot_path() == screenshot_path@,
    {
        UploadScreenshotTask { state: TatakuTaskState::NotStarted, screenshot_path, started: false }
    }

    /// The task's state.
    pub fn get_state(&self) -> (s: TatakuTaskState)
        ensures
            s == self.state(),
    {
        self.state
    }

    /// How often the task runs: once.
    pub fn get_type(&self) -> (t: TatakuTaskType)
        ensures
            t == TatakuTaskType::Once,
    {
        TatakuTaskType::Once
    }

    /// The task's name.
    pub fn get_name(&self) -> (s: &'static str)
        ensures
            s@ == "Upload Screentho"@,
    {
        "Upload Screentho"
    }

    /// The file to upload.
    pub fn get_screenshot_path(&self) -> (p: &str)
        ensures
            p@ == self.screenshot_path(),
    {
        self.screenshot_path.as_str()
    }

    /// Starts the upload: the task runs and the user is told that the upload started.
    pub fn begin(&mut self) -> (n: Notification)
        ensures
            final(self).state() == TatakuTaskState::Running,
            final(self).started(),
            final(self).screenshot_path() == old(self).screenshot_path(),
            n@ == (NotificationView {
                text: "Uploading screenshot..."@,
                color: NotificationColor::Yellow,
                duration_ms: 5000,
                onclick: OnClickView::Nothing,
            }),
    {
        self.state = TatakuTaskState::Running;
        self.started = true;
        Notification::new_text(String::from_str("Uploading screenshot..."), NotificationColor::Yellow, 5000)
    }

    /// Takes the upload's outcome: on success the link is announced (clicking opens it) and
    /// copied to the clipboard; a failure is announced as it came. The task completes.
    pub fn finish(&mut self, received: Result<String, Notification>) -> (actions: Vec<ScreenshotAction>)
        ensures
            final(self).state() == TatakuTaskState::Complete,
            match received {
                Ok(url) => {
                    &&& actions@.len() == 2
                    &&& actions@[0] matches ScreenshotAction::Notify(n) && n@ == (NotificationView {
                        text: uploaded_text(url@),
                        color: NotificationColor::Blue,
                        duration_ms: 5000,
                        onclick: OnClickView::Url(url@),
                    })
                    &&& actions@[1] matches ScreenshotAction::CopyToClipboard(c) && c@ == url@
                },
                Err(n) => actions@.len() == 1 && actions@[0] == ScreenshotAction::Notify(n),
            },
    {
        let mut actions: Vec<ScreenshotAction> = Vec::new();
        match received {
            Ok(url) => {
                let mut text = String::from_str("Screenshot uploaded ");
                text.append(url.as_str());
                let onclick = NotificationOnClick::Url(url.clone());
                actions.push(ScreenshotAction::Notify(Notification::new(text, NotificationColor::Blue, 5000, onclick)));
                actions.push(ScreenshotAction::CopyToClipboard(url));
            },
            Err(n) => actions.push(ScreenshotAction::Notify(n)),
        }
        self.state = TatakuTaskState::Complete;
        actions
    }
}

/// The lowest and highest speed (in percent) difficulties are calculated for, and the step.
pub const FIRST_SPEED: u16 = 50;
pub const LAST_SPEED: u16 = 1000;
pub const SPEED_STEP: u16 = 5;

/// How many speeds difficulties are calculated for: 50, 55, ..., 1000.
pub open spec fn speed_count() -> nat {
    191
}

/// One combination to calculate a difficulty for: a speed and an index into the list of
/// mod sets.
#[derive(Clone, Copy, Debug, PartialEq, Eq, Structural)]
pub struct DiffCalcKey {
    pub speed: u16,
    pub mods_index: usize,
}

/// The `k`-th combination: speeds in increasing order, and every mod set for each speed.
pub open spec fn nth_key(k: nat, mod_count: nat) -> DiffCalcKey
    recommends
        mod_count > 0,
{
    DiffCalcKey { speed: (50 + 5 * (k / mod_count)) as u16, mods_index: (k % mod_count) as usize }
}

/// Walks every speed from 50 to 1000 in steps of 5, and for each speed every mod set.
pub struct DiffCalcTaskIter {
    speed: u16,
    mod_count: usize,
    mods_index: usize,
    /// the combinations handed out so far
    handed: Ghost<Seq<DiffCalcKey>>,
}

impl DiffCalcTaskIter {
    /// The internal consistency of the walk.
    pub closed spec fn wf(&self) -> bool {
        &&& 50 <= self.speed <= 1000
        &&& self.speed % 5 == 0
        &&& self.mods_index <= self.mod_count
        &&& self.position() <= speed_count() * self.mod_count
        &&& self.handed@ == walk_keys(self.mod_count as nat).take(self.position() as int)
    }

    /// The combinations handed out so far, in order.
    pub closed spec fn handed_out(&self) -> Seq<DiffCalcKey> {
        self.handed@
    }

    /// How many mod sets there are per speed.
    pub closed spec fn mod_count(&self) -> nat {
        self.mod_count as nat
    }

    /// How many speed steps are left.
    pub closed spec fn speeds_left(&self) -> nat {
        (1000 - self.speed) as nat
    }

    /// How many combinations were handed out so far.
    pub closed spec fn position(&self) -> nat {
        (((self.speed - 50) / 5) * self.mod_count + self.mods_index) as nat
    }

    /// The walk over `mod_count` mod sets, at its start.
    pub fn new(mod_count: usize) -> (it: DiffCalcTaskIter)
        ensures
            it.wf(),
            it.mod_count() == mod_count,
            it.position() == 0,
            it.handed_out() == Seq::<DiffCalcKey>::empty(),
    {
        let it = DiffCalcTaskIter { speed: FIRST_SPEED, mod_count, mods_index: 0, handed: Ghost(Seq::empty()) };
        assert(walk_keys(mod_count as nat).take(0) =~= Seq::<DiffCalcKey>::empty());
        it
    }

    /// The next combination, or `None` once every combination was handed out. Over the
    /// whole walk the combinations come out as [`walk_keys`] lists them, 191 per mod set,
    /// and after the last one the walk gives `None` for good.
    pub fn next(&mut self) -> (k: Option<DiffCalcKey>)
        requires
            old(self).wf(),
        ensures
            final(self).wf(),
            final(self).mod_count() == old(self).mod_count(),
            match k {
                Some(key) => {
                    &&& old(self).position() < speed_count() * old(self).mod_count()
                    &&& key == nth_key(old(self).position(), old(self).mod_count())
                    &&& final(self).position() == old(self).position() + 1
                    &&& final(self).handed_out() == old(self).handed_out().push(key)
                },
                None => {
                    &&& old(self).position() >= speed_count() * old(self).mod_count()
                    &&& final(self).position() == speed_count() * final(self).mod_count()
                    &&& final(self).handed_out() == old(self).handed_out()
                    &&& final(self).handed_out() == walk_keys(old(self).mod_count())
                },
            },
        decreases old(self).speeds_left(),
    {
        let ghost c = self.mod_count as int;
        let ghost q = (self.speed - 50) / 5;
        if self.mods_index < self.mod_count {
            let key = DiffCalcKey { speed: self.speed, mods_index: self.mods_index };
            let ghost p = q * c + self.mods_index;
            proof {
                vstd::arithmetic::div_mod::lemma_fundamental_div_mod_converse(p, c, q, self.mods_index as int);
                assert(q <= 190);
                assert(q * c + c <= 191 * c) by (nonlinear_arith) requires q <= 190, c >= 0;
            }
            self.mods_index += 1;
            proof {
                let w = walk_keys(c as nat);
                assert(self.position() == p + 1);
                assert(w.take(p + 1) =~= w.take(p).push(w[p]));
                self.handed = Ghost(self.handed@.push(key));
            }
            return Some(key);
        }
        if self.speed < LAST_SPEED {
            proof {
                assert((q + 1) * c == q * c + c) by (nonlinear_arith);
            }
            self.speed = self.speed + SPEED_STEP;
            self.mods_index = 0;
            assert((self.speed - 50) / 5 == q + 1);
            return self.next();
        }
        proof {
            assert(q == 190);
            assert(self.mods_index == self.mod_count);
            assert(self.position() == 190 * c + c);
            assert(self.position() >= speed_count() * self.mod_count());
            assert(walk_keys(c as nat).take(self.position() as int) =~= walk_keys(c as nat));
        }
        None
    }

    /// Hands out every combination still to come, in order; the walk is then over, so
    /// `next` gives `None` from then on. From a new walk these are all of [`walk_keys`].
    pub fn collect_rest(&mut self) -> (keys: Vec<DiffCalcKey>)
        requires
            old(self).wf(),
        ensures
            final(self).wf(),
            final(self).mod_count() == old(self).mod_count(),
            final(self).position() == speed_count() * final(self).mod_count(),
            final(self).handed_out() == walk_keys(old(self).mod_count()),
            old(self).handed_out() + keys@ == walk_keys(old(self).mod_count()),
    {
        let ghost start = self.handed_out();
        let mut keys: Vec<DiffCalcKey> = Vec::new();
        loop
            invariant_except_break
                self.wf(),
                self.mod_count() == old(self).mod_count(),
                self.handed_out() == start + keys@,
            ensures
                self.wf(),
                self.mod_count() == old(self).mod_count(),
                self.position() == speed_count() * self.mod_count(),
                self.handed_out() == walk_keys(old(self).mod_count()),
                start + keys@ == walk_keys(old(self).mod_count()),
            decreases speed_count() * self.mod_count() - self.position(),
        {
            match self.next() {
                Some(k) => {
                    keys.push(k);
                    assert(self.handed_out() =~= start + keys@);
                },
                None => {
                    break;
                },
            }
        }
        keys
    }
}

/// What difficulty calculation asks of the game next.
#[derive(Clone, Copy, Debug, PartialEq, Eq, Structural)]
pub enum DiffCalcStep {
    /// the player is in a game: pause, stopping the running calculation (if any)
    Paused { aborted: Option<DiffCalcKey> },
    /// a calculation is running and has not finished
    Waiting,
    /// the running calculation for this combination finished: record its difficulty
    Collected(DiffCalcKey),
    /// calculate the difficulty of this combination
    Calculate(DiffCalcKey),
    /// everything was calculated: save the results
    Complete,
}

/// Calculates the difficulty of one beatmap for every speed and mod set, pausing while
/// the player is in a game and redoing what a pause stopped.
pub struct DiffCalcTask {
    state: TatakuTaskState,
    iter: DiffCalcTaskIter,
    interrupted: Vec<DiffCalcKey>,
    current: Option<DiffCalcKey>,
}

impl DiffCalcTask {
    /// The task's state.
    pub closed spec fn state(&self) -> TatakuTaskState {
        self.state
    }

    /// The combinations whose calculation a pause stopped.
    pub closed spec fn interrupted(&self) -> Seq<DiffCalcKey> {
        self.interrupted@
    }

    /// The calculation running now.
    pub closed spec fn current(&self) -> Option<DiffCalcKey> {
        self.current
    }

    /// The walk over the combinations.
    pub closed spec fn walk(&self) -> DiffCalcTaskIter {
        self.iter
    }

    /// The internal consistency of the task.
    pub closed spec fn wf(&self) -> bool {
        self.iter.wf()
    }

    /// A task over `mod_count` mod sets.
    pub fn new(mod_count: usize) -> (t: DiffCalcTask)
        ensures
            t.wf(),
            t.state() == TatakuTaskState::NotStarted,
            t.interrupted().len() == 0,
            t.current() is None,
            t.walk().position() == 0,
            t.walk().mod_count() == mod_count,
    {
        DiffCalcTask {
            state: TatakuTaskState::NotStarted,
            iter: DiffCalcTaskIter::new(mod_count),
            interrupted: Vec::new(),
            current: None,
        }
    }

    /// How often the task runs: once.
    pub fn get_type(&self) -> (t: TatakuTaskType)
        ensures
            t == TatakuTaskType::Once,
    {
        TatakuTaskType::Once
    }

    /// The task's key: `diff_calc`.
    pub fn get_id(&self) -> (s: &'static str)
        ensures
            s@ == "diff_calc"@,
    {
        "diff_calc"
    }

    /// The task's state.
    pub fn get_state(&self) -> (s: TatakuTaskState)
        ensures
            s == self.state(),
    {
        self.state
    }

    /// Records that the calculation for `key` was started.
    pub fn started(&mut self, key: DiffCalcKey)
        ensures
            final(self).current() == Some(key),
            final(self).state() == old(self).state(),
            final(self).interrupted() == old(self).interrupted(),
            final(self).walk() == old(self).walk(),
            final(self).wf() == old(self).wf(),
    {
        self.current = Some(key);
    }

    /// One step. `ingame` tells whether the player is in a game, `finished` whether the
    /// running calculation (if any) has delivered its result.
    pub fn run(&mut self, ingame: bool, finished: bool) -> (step: DiffCalcStep)
        requires
            old(self).wf(),
        ensures
            final(self).wf(),
            if ingame {
                &&& step == DiffCalcStep::Paused { aborted: old(self).current() }
                &&& final(self).state() == TatakuTaskState::Paused
                &&& final(self).current() is None
                &&& final(self).walk() == old(self).walk()
                &&& final(self).interrupted() == match old(self).current() {
                        Some(k) => old(self).interrupted().push(k),
                        None => old(self).interrupted(),
                    }
            } else if old(self).current() is Some {
                &&& final(self).state() == TatakuTaskState::Running
                &&& final(self).walk() == old(self).walk()
                &&& final(self).interrupted() == old(self).interrupted()
                &&& if finished {
                        step == DiffCalcStep::Collected(old(self).current()->0) && final(self).current() is None
                    } else {
                        step == DiffCalcStep::Waiting && final(self).current() == old(self).current()
                    }
            } else {
                &&& final(self).current() is None
                &&& final(self).walk().mod_count() == old(self).walk().mod_count()
                &&& if old(self).walk().position() < speed_count() * old(self).walk().mod_count() {
                        &&& step == DiffCalcStep::Calculate(nth_key(old(self).walk().position(), old(self).walk().mod_count()))
                        &&& final(self).walk().position() == old(self).walk().position() + 1
                        &&& final(self).interrupted() == old(self).interrupted()
                        &&& final(self).state() == TatakuTaskState::Running
                    } else if old(self).interrupted().len() > 0 {
                        &&& step == DiffCalcStep::Calculate(old(self).interrupted().last())
                        &&& final(self).interrupted() == old(self).interrupted().drop_last()
                        &&& final(self).state() == TatakuTaskState::Running
                    } else {
                        &&& step == DiffCalcStep::Complete
                        &&& final(self).interrupted().len() == 0
                        &&& final(self).state() == TatakuTaskState::Complete
                    }
            },
    {
        if ingame {
            self.state = TatakuTaskState::Paused;
            let aborted = self.current.take();
            if let Some(k) = aborted {
                self.interrupted.push(k);
            }
            return DiffCalcStep::Paused { aborted };
        }
        self.state = TatakuTaskState::Running;
        if let Some(k) = self.current {
            if finished {
                self.current = None;
                return DiffCalcStep::Collected(k);
            }
            return DiffCalcStep::Waiting;
        }
        if let Some(k) = self.iter.next() {
            return DiffCalcStep::Calculate(k);
        }
        if let Some(k) = self.interrupted.pop() {
            return DiffCalcStep::Calculate(k);
        }
        self.state = TatakuTaskState::Complete;
        DiffCalcStep::Complete
    }
}

/// Submits a score once a play is over, and keeps the server's answer.
#[derive(Debug)]
pub struct ScoreSubmitHelper<S> {
    pub score: S,
    pub username: String,
    pub password: String,
    pub score_url: String,
    /// the game the beatmap comes from
    pub beatmap_game: String,
    pub response: Option<SubmitResponse>,
}

impl<S> ScoreSubmitHelper<S> {
    /// A submission of a score for a beatmap of the given game, from the account in
    /// `settings`; no answer yet.
    pub fn new(score: S, settings: &ServerSettings, beatmap_game: String) -> (h: ScoreSubmitHelper<S>)
        ensures
            h.score == score,
            h.username@ == settings.username@,
            h.password@ == settings.password@,
            h.score_url@ == settings.score_url@,
            h.beatmap_game == beatmap_game,
            h.response is None,
    {
        ScoreSubmitHelper {
            score,
            username: settings.username.clone(),
            password: settings.password.clone(),
            score_url: settings.score_url.clone(),
            beatmap_game,
            response: None,
        }
    }

    /// Starts the submission: without a username or password it is refused at once
    /// (recorded as the answer); otherwise returns the url to post to.
    pub fn submit(&mut self) -> (url: Option<String>)
        ensures
            final(self).score == old(self).score,
            no_user_response(old(self).username@, old(self).password@) ==> {
                &&& url is None
                &&& final(self).response matches Some(SubmitResponse::NotSubmitted(NotSubmittedReason::NoUser, msg))
                    && msg@ == "No user/password in settings"@
            },
            !no_user_response(old(self).username@, old(self).password@) ==> {
                &&& url matches Some(u) && u@ == old(self).score_url@ + "/score_submit"@
                &&& final(self).response == old(self).response
            },
    {
        if self.username.unicode_len() == 0 || self.password.unicode_len() == 0 {
            self.response = Some(SubmitResponse::NotSubmitted(
                NotSubmittedReason::NoUser,
                String::from_str("No user/password in settings"),
            ));
            None
        } else {
            let mut url = self.score_url.clone();
            url.append("/score_submit");
            Some(url)
        }
    }

    /// What is posted: our account, the game's name and the score with its beatmap.
    pub fn request(&self, map_hash: u128, playmode: String) -> (r: ScoreSubmit<&S>)
        ensures
            r.username@ == self.username@,
            r.password@ == self.password@,
            r.game@ == "tataku"@,
            *r.score == self.score,
            r.map_info.game@ == self.beatmap_game@,
            r.map_info.map_hash == map_hash,
            r.map_info.playmode == playmode,
    {
        ScoreSubmit {
            username: self.username.clone(),
            password: self.password.clone(),
            game: String::from_str("tataku"),
            score: &self.score,
            map_info: ScoreMapInfo { game: self.beatmap_game.clone(), map_hash, playmode },
        }
    }

    /// The submission could not be serialized.
    pub fn serialize_failed(&mut self)
        ensures
            final(self).score == old(self).score,
            final(self).response matches Some(SubmitResponse::NotSubmitted(NotSubmittedReason::InternalError, msg))
                && msg@ == "Error serializing replay"@,
    {
        self.response = Some(SubmitResponse::NotSubmitted(
            NotSubmittedReason::InternalError,
            String::from_str("Error serializing replay"),
        ));
    }

    /// The server answered: its answer is kept, or an internal error when it could not be
    /// read.
    pub fn received<E>(&mut self, answer: Result<SubmitResponse, E>)
        ensures
            final(self).score == old(self).score,
            match answer {
                Ok(r) => final(self).response == Some(r),
                Err(_) => final(self).response matches Some(SubmitResponse::NotSubmitted(NotSubmittedReason::InternalError, msg))
                    && msg@ == "Error reading server response"@,
            },
    {
        match answer {
            Ok(r) => self.response = Some(r),
            Err(_) => {
                self.response = Some(SubmitResponse::NotSubmitted(
                    NotSubmittedReason::InternalError,
                    String::from_str("Error reading server response"),
                ));
            },
        }
    }

    /// The request could not be sent: an error notification, and no answer.
    pub fn send_failed(&self, error: &str) -> (n: Notification)
        ensures
            n@ == (NotificationView {
                text: error_text("error submitting score"@, error@),
                color: NotificationColor::Red,
                duration_ms: ERROR_NOTIFICATION_MS,
                onclick: OnClickView::Nothing,
            }),
    {
        Notification::new_error("error submitting score", error)
    }
}


/// The difficulty walk hands out each combination once: two different positions of the
/// walk give different combinations.
pub proof fn law_keys_distinct(k1: nat, k2: nat, mod_count: nat)
    requires
        0 < mod_count <= usize::MAX,
        k1 < speed_count() * mod_count,
        k2 < speed_count() * mod_count,
        k1 != k2,
    ensures
        nth_key(k1, mod_count) != nth_key(k2, mod_count),
{
    let c = mod_count as int;
    let q1 = k1 as int / c;
    let q2 = k2 as int / c;
    let r1 = k1 as int % c;
    let r2 = k2 as int % c;
    vstd::arithmetic::div_mod::lemma_fundamental_div_mod(k1 as int, c);
    vstd::arithmetic::div_mod::lemma_fundamental_div_mod(k2 as int, c);
    vstd::arithmetic::div_mod::lemma_mod_bound(k1 as int, c);
    vstd::arithmetic::div_mod::lemma_mod_bound(k2 as int, c);
    vstd::arithmetic::div_mod::lemma_div_pos_is_pos(k1 as int, c);
    vstd::arithmetic::div_mod::lemma_div_pos_is_pos(k2 as int, c);
    assert(q1 < 191 && q2 < 191) by (nonlinear_arith)
        requires
            k1 == c * q1 + r1,
            k2 == c * q2 + r2,
            0 <= r1,
            0 <= r2,
            k1 < 191 * c,
            k2 < 191 * c,
            c > 0;
    if nth_key(k1, mod_count) == nth_key(k2, mod_count) {
        assert(q1 == q2);
        assert(r1 == r2);
    }
}

/// The difficulty walk reaches every combination: each speed from 50 to 1000 in steps of 5,
/// with each mod set.
pub proof fn law_keys_cover(speed_step: nat, mods_index: nat, mod_count: nat)
    requires
        speed_step < speed_count(),
        mods_index < mod_count,
    ensures
        speed_step * mod_count + mods_index < speed_count() * mod_count,
        nth_key(speed_step * mod_count + mods_index, mod_count)
            == (DiffCalcKey { speed: (50 + 5 * speed_step) as u16, mods_index: mods_index as usize }),
{
    let c = mod_count as int;
    let k = speed_step * mod_count + mods_index;
    vstd::arithmetic::div_mod::lemma_fundamental_div_mod_converse(k as int, c, speed_step as int, mods_index as int);
    assert(speed_step * mod_count + mods_index < speed_count() * mod_count) by (nonlinear_arith)
        requires speed_step < speed_count(), mods_index < mod_count, speed_count() == 191;
}


/// The combinations the whole walk over `mod_count` mod sets hands out, in order: the walk
/// starts at position 0 (see [`DiffCalcTaskIter::new`]), each step hands out the key of its
/// position and moves on by one, and it hands out a key exactly while its position is below
/// `speed_count() * mod_count` (see [`DiffCalcTaskIter::next`]), so after these keys it gives
/// `None` for good.
pub open spec fn walk_keys(mod_count: nat) -> Seq<DiffCalcKey> {
    Seq::new(speed_count() * mod_count, |k: int| nth_key(k as nat, mod_count))
}

/// The walk goes through the speeds in increasing order, and through every mod set at each
/// speed in increasing order: each key comes after the one before it in (speed, mod set)
/// order.
pub proof fn law_keys_in_order(k1: nat, k2: nat, mod_count: nat)
    requires
        0 < mod_count <= usize::MAX,
        k1 < k2 < speed_count() * mod_count,
    ensures
        walk_keys(mod_count).len() == speed_count() * mod_count,
        walk_keys(mod_count)[k1 as int].speed < walk_keys(mod_count)[k2 as int].speed
            || (walk_keys(mod_count)[k1 as int].speed == walk_keys(mod_count)[k2 as int].speed
                && walk_keys(mod_count)[k1 as int].mods_index < walk_keys(mod_count)[k2 as int].mods_index),
{
    let c = mod_count as int;
    let q1 = k1 as int / c;
    let q2 = k2 as int / c;
    let r1 = k1 as int % c;
    let r2 = k2 as int % c;
    vstd::arithmetic::div_mod::lemma_fundamental_div_mod(k1 as int, c);
    vstd::arithmetic::div_mod::lemma_fundamental_div_mod(k2 as int, c);
    vstd::arithmetic::div_mod::lemma_mod_bound(k1 as int, c);
    vstd::arithmetic::div_mod::lemma_mod_bound(k2 as int, c);
    vstd::arithmetic::div_mod::lemma_div_pos_is_pos(k1 as int, c);
    vstd::arithmetic::div_mod::lemma_div_is_ordered(k1 as int, k2 as int, c);
    assert(q2 < 191) by (nonlinear_arith)
        requires
            k2 == c * q2 + r2,
            0 <= r2,
            k2 < 191 * c,
            c > 0;
    assert(q1 == q2 ==> r1 < r2) by (nonlinear_arith)
        requires
            k1 == c * q1 + r1,
            k2 == c * q2 + r2,
            k1 < k2;
    assert(walk_keys(mod_count)[k1 as int] == nth_key(k1, mod_count));
    assert(walk_keys(mod_count)[k2 as int] == nth_key(k2, mod_count));
}

} // verus!
