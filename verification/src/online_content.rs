use vstd::prelude::*;
use std::collections::HashSet;
use crate::tasks::{TatakuTaskState, TatakuTaskType};

verus! {

broadcast use vstd::std_specs::hash::group_hash_axioms;

/// What a search engine for online beatmaps offers.
#[derive(Debug)]
pub struct OnlineContentCapabilities {
    pub engine_id: String,
    pub display_name: String,
}

impl OnlineContentCapabilities {
    /// A copy of these capabilities.
    pub fn duplicate(&self) -> (r: OnlineContentCapabilities)
        ensures
            r.engine_id@ == self.engine_id@,
            r.display_name@ == self.display_name@,
    {
        OnlineContentCapabilities { engine_id: self.engine_id.clone(), display_name: self.display_name.clone() }
    }
}

/// A search for online beatmaps.
#[derive(Debug)]
pub struct OnlineContentSearch {
    pub engine_id: String,
    pub page: u32,
    pub query: String,
}

/// The mathematical value of an [`OnlineContentSearch`].
pub struct SearchView {
    pub engine_id: Seq<char>,
    pub page: u32,
    pub query: Seq<char>,
}

impl View for OnlineContentSearch {
    type V = SearchView;

    open spec fn view(&self) -> SearchView {
        SearchView { engine_id: self.engine_id@, page: self.page, query: self.query@ }
    }
}

impl OnlineContentSearch {
    /// A copy of this search.
    pub fn duplicate(&self) -> (r: OnlineContentSearch)
        ensures
            r@ == self@,
    {
        OnlineContentSearch { engine_id: self.engine_id.clone(), page: self.page, query: self.query.clone() }
    }
}

/// What an online item is.
#[derive(Debug)]
pub enum OnlineContentItemType {
    /// a beatmap set holding beatmaps with these hashes
    BeatmapSet { map_hashes: Vec<u128> },
}

/// One search result; `D` is what downloading it takes.
#[derive(Debug)]
pub struct OnlineContentItem<D> {
    pub id: u64,
    pub item_type: OnlineContentItemType,
    pub download: D,
    pub audio_preview: Option<String>,
}

/// The results of the last search, as the download menu shows them.
#[derive(Debug)]
pub struct OnlineContentResults<D> {
    pub items: Vec<OnlineContentItem<D>>,
    pub count: usize,
    pub page: usize,
    pub completed: bool,
}

/// Whether a search result is worth showing: a beatmap set is hidden when one of its
/// beatmaps is already known.
pub open spec fn not_owned<D>(item: OnlineContentItem<D>, known: Set<u128>) -> bool {
    match item.item_type {
        OnlineContentItemType::BeatmapSet { map_hashes } =>
            !(exists|j: int| 0 <= j < map_hashes@.len() && known.contains(#[trigger] map_hashes@[j])),
    }
}

/// The test that keeps the results worth showing.
pub open spec fn keep_unowned<D>(known: Set<u128>) -> spec_fn(OnlineContentItem<D>) -> bool {
    |item: OnlineContentItem<D>| not_owned(item, known)
}

/// Whether none of the hashes is known.
pub fn none_known(hashes: &Vec<u128>, known: &HashSet<u128>) -> (b: bool)
    ensures
        b == !(exists|j: int| 0 <= j < hashes@.len() && known@.contains(#[trigger] hashes@[j])),
{
    for j in 0..hashes.len()
        invariant
            forall|k: int| 0 <= k < j ==> !known@.contains(#[trigger] hashes@[k]),
    {
        if known.contains(&hashes[j]) {
            return false;
        }
    }
    true
}

/// Searches one engine for online beatmaps and stores the results.
#[derive(Debug)]
pub struct OnlineContentSearchTask {
    search: OnlineContentSearch,
    engine_ids: Vec<String>,
    started: bool,
    state: TatakuTaskState,
}

/// The index of the first engine with this id.
pub open spec fn first_engine(ids: Seq<String>, id: Seq<char>, i: int) -> bool {
    0 <= i < ids.len() && ids[i]@ == id && forall|j: int| 0 <= j < i ==> #[trigger] ids[j]@ != id
}

impl OnlineContentSearchTask {
    /// The task's state.
    pub closed spec fn state(&self) -> TatakuTaskState {
        self.state
    }

    /// The search to run.
    pub closed spec fn search(&self) -> SearchView {
        self.search@
    }

    /// The ids of the available engines.
    pub closed spec fn engine_ids(&self) -> Seq<String> {
        self.engine_ids@
    }

    /// Whether the search was started.
    pub closed spec fn started(&self) -> bool {
        self.started
    }

    /// A task running `search` on one of the engines with the given ids.
    pub fn new(search: OnlineContentSearch, engine_ids: Vec<String>) -> (t: OnlineContentSearchTask)
        ensures
            t.state() == TatakuTaskState::NotStarted,
            t.search() == search@,
            t.engine_ids() == engine_ids@,
            !t.started(),
    {
        OnlineContentSearchTask { search, engine_ids, started: false, state: TatakuTaskState::NotStarted }
    }

    /// The task's state.
    pub fn get_state(&self) -> (s: TatakuTaskState)
        ensures
            s == self.state(),
    {
        self.state
    }

    /// How often the task runs: once.
    pub fn get_type(&self) -> (t: TatakuTaskType)
        ensures
            t == TatakuTaskType::Once,
    {
        TatakuTaskType::Once
    }

    /// The task's name.
    pub fn get_name(&self) -> (s: &'static str)
        ensures
            s@ == "OnlineContentSearch"@,
    {
        "OnlineContentSearch"
    }

    /// The search to run.
    pub fn get_search(&self) -> (s: &OnlineContentSearch)
        ensures
            s@ == self.search(),
    {
        &self.search
    }

    /// Starts the search: the results are emptied, and the index of the engine to search
    /// is returned. Without such an engine the results are marked complete and the task
    /// completes.
    pub fn begin<D>(&mut self, results: &mut OnlineContentResults<D>) -> (engine: Option<usize>)
        ensures
            final(self).search() == old(self).search(),
            final(self).engine_ids() == old(self).engine_ids(),
            final(results).items@.len() == 0,
            final(results).count == old(results).count,
            final(results).page == old(results).page,
            match engine {
                Some(i) => first_engine(old(self).engine_ids(), old(self).search().engine_id, i as int)
                    && final(self).state() == TatakuTaskState::Running
                    && final(self).started()
                    && !final(results).completed,
                None => (forall|j: int| 0 <= j < old(self).engine_ids().len()
                        ==> #[trigger] old(self).engine_ids()[j]@ != old(self).search().engine_id)
                    && final(self).state() == TatakuTaskState::Complete
                    && final(results).completed,
            },
    {
        results.completed = false;
        results.items.clear();
        let mut found: Option<usize> = None;
        let mut i: usize = 0;
        while i < self.engine_ids.len()
            invariant_except_break
                found is None,
            invariant
                i <= self.engine_ids@.len(),
                forall|j: int| 0 <= j < i ==> #[trigger] self.engine_ids@[j]@ != self.search@.engine_id,
            ensures
                match found {
                    Some(k) => first_engine(self.engine_ids@, self.search@.engine_id, k as int),
                    None => forall|j: int| 0 <= j < self.engine_ids@.len()
                        ==> #[trigger] self.engine_ids@[j]@ != self.search@.engine_id,
                },
            decreases self.engine_ids@.len() - i,
        {
            if self.engine_ids[i].eq(&self.search.engine_id) {
                found = Some(i);
                break;
            }
            i += 1;
        }
        match found {
            Some(k) => {
                self.started = true;
                self.state = TatakuTaskState::Running;
            },
            None => {
                results.completed = true;
                self.state = TatakuTaskState::Complete;
            },
        }
        found
    }

    /// Takes what the engine found: results for beatmap sets we already have are dropped,
    /// the rest are stored (in order) with the page searched, and the task completes.
    pub fn finish<D>(
        &mut self,
        found: Vec<OnlineContentItem<D>>,
        count: usize,
        known: &HashSet<u128>,
        results: &mut OnlineContentResults<D>,
    )
        ensures
            final(self).state() == TatakuTaskState::Complete,
            final(self).search() == old(self).search(),
            final(results).items@ == found@.filter(keep_unowned(known@)),
            final(results).count == count,
            final(results).page == old(self).search().page as usize,
            final(results).completed,
    {
        let ghost all = found@;
        let mut kept: Vec<OnlineContentItem<D>> = Vec::new();
        let n = found.len();
        for item in it: found
            invariant
                n == all.len(),
                it.seq() == all,
                kept@ == all.take(it.index() as int).filter(keep_unowned(known@)),
        {
            let ghost i = it.index();
            proof { reveal(Seq::filter); }
            assert(all.take(i + 1).drop_last() =~= all.take(i as int));
            assert(item == all[i as int]);
            let keep = match &item.item_type {
                OnlineContentItemType::BeatmapSet { map_hashes } => none_known(map_hashes, known),
            };
            if keep {
                kept.push(item);
            }
        }
        assert(all.take(n as int) =~= all);
        results.items = kept;
        results.count = count;
        results.page = self.search.page as usize;
        results.completed = true;
        self.state = TatakuTaskState::Complete;
    }
}

/// What the download menu asks of the online content manager.
#[derive(Debug)]
pub enum OnlineContentAction {
    NextPage,
    PreviousPage,
    SetPage(usize),
    Search(OnlineContentSearch),
    Download(u64),
    AudioPreview(u64),
}

/// What the online content manager asks of the game.
#[derive(Debug)]
pub enum ContentOutput<D> {
    /// run this search (handled by this manager again)
    Search(OnlineContentSearch),
    /// start a search task for this search
    StartSearchTask(OnlineContentSearch),
    /// perform this download
    Download(D),
    /// put the current song aside
    PushSongQueue,
    /// play the audio preview at this url
    PreviewAudio(String),
}

/// Whether `i` is the first result with this id.
pub open spec fn first_with_id<D>(items: Seq<OnlineContentItem<D>>, id: u64, i: int) -> bool {
    0 <= i < items.len() && items[i].id == id && forall|j: int| 0 <= j < i ==> #[trigger] items[j].id != id
}

/// Whether no result has this id.
pub open spec fn no_item_with_id<D>(items: Seq<OnlineContentItem<D>>, id: u64) -> bool {
    forall|j: int| 0 <= j < items.len() ==> #[trigger] items[j].id != id
}

/// The index of the first result with this id.
pub fn find_item<D>(items: &Vec<OnlineContentItem<D>>, id: u64) -> (r: Option<usize>)
    ensures
        match r {
            Some(i) => first_with_id(items@, id, i as int),
            None => no_item_with_id(items@, id),
        },
{
    for i in 0..items.len()
        invariant
            forall|j: int| 0 <= j < i ==> #[trigger] items@[j].id != id,
    {
        if items[i].id == id {
            return Some(i);
        }
    }
    None
}

/// The engines that search for online beatmaps, and the last search made.
#[derive(Debug)]
pub struct OnlineContentManager {
    pub engines: Vec<OnlineContentCapabilities>,
    pub last_search: Option<OnlineContentSearch>,
}

/// The search after a page action.
pub open spec fn page_moved(last: SearchView, page: u32) -> SearchView {
    SearchView { page, ..last }
}

impl OnlineContentManager {
    /// A manager for the given engines, with no search made yet.
    pub fn new(engines: Vec<OnlineContentCapabilities>) -> (m: OnlineContentManager)
        ensures
            m.engines == engines,
            m.last_search is None,
    {
        OnlineContentManager { engines, last_search: None }
    }

    /// What each engine offers, in order.
    pub fn get_capabilities(&self) -> (r: Vec<OnlineContentCapabilities>)
        ensures
            r@.len() == self.engines@.len(),
            forall|i: int| 0 <= i < r@.len() ==> #[trigger] r@[i].engine_id@ == self.engines@[i].engine_id@
                && r@[i].display_name@ == self.engines@[i].display_name@,
    {
        let mut r: Vec<OnlineContentCapabilities> = Vec::new();
        let n = self.engines.len();
        let mut i: usize = 0;
        while i < n
            invariant
                n == self.engines@.len(),
                i <= n,
                r@.len() == i,
                forall|k: int| 0 <= k < i ==> #[trigger] r@[k].engine_id@ == self.engines@[k].engine_id@
                    && r@[k].display_name@ == self.engines@[k].display_name@,
            decreases n - i,
        {
            r.push(self.engines[i].duplicate());
            i += 1;
        }
        r
    }

    /// The ids of the engines, in order.
    pub fn engine_ids(&self) -> (r: Vec<String>)
        ensures
            r@.len() == self.engines@.len(),
            forall|i: int| 0 <= i < r@.len() ==> #[trigger] r@[i]@ == self.engines@[i].engine_id@,
    {
        let mut r: Vec<String> = Vec::new();
        for i in 0..self.engines.len()
            invariant
                r@.len() == i,
                forall|k: int| 0 <= k < i ==> #[trigger] r@[k]@ == self.engines@[k].engine_id@,
        {
            r.push(self.engines[i].engine_id.clone());
        }
        r
    }

    /// Handles an action of the download menu.
    ///
    /// Page actions move the last search (if any) to another page and search again, never
    /// before the first page; a search is remembered and started; a download or an audio
    /// preview refers to the first result with the given id (a download also takes the
    /// result off the list).
    pub fn handle_action<D>(
        &mut self,
        action: OnlineContentAction,
        results: &mut OnlineContentResults<D>,
    ) -> (out: Vec<ContentOutput<D>>)
        requires
            action is NextPage && old(self).last_search is Some ==> old(self).last_search->0.page < u32::MAX,
        ensures
            final(self).engines == old(self).engines,
            final(results).count == old(results).count,
            final(results).page == old(results).page,
            final(results).completed == old(results).completed,
            match action {
                OnlineContentAction::NextPage => match old(self).last_search {
                    Some(last) => {
                        let moved = page_moved(last@, (last.page + 1) as u32);
                        &&& final(self).last_search matches Some(l) && l@ == moved
                        &&& out@.len() == 1
                        &&& out@[0] matches ContentOutput::Search(s) && s@ == moved
                    },
                    None => final(self).last_search is None && out@.len() == 0,
                },
                OnlineContentAction::PreviousPage => match old(self).last_search {
                    Some(last) => if last.page == 0 {
                        &&& final(self).last_search matches Some(l) && l@ == last@
                        &&& out@.len() == 0
                    } else {
                        let moved = page_moved(last@, (last.page - 1) as u32);
                        &&& final(self).last_search matches Some(l) && l@ == moved
                        &&& out@.len() == 1
                        &&& out@[0] matches ContentOutput::Search(s) && s@ == moved
                    },
                    None => final(self).last_search is None && out@.len() == 0,
                },
                OnlineContentAction::SetPage(page) => match old(self).last_search {
                    Some(last) => {
                        let moved = page_moved(last@, page as u32);
                        &&& final(self).last_search matches Some(l) && l@ == moved
                        &&& out@.len() == 1
                        &&& out@[0] matches ContentOutput::Search(s) && s@ == moved
                    },
                    None => final(self).last_search is None && out@.len() == 0,
                },
                OnlineContentAction::Search(search) => {
                    &&& final(self).last_search matches Some(l) && l@ == search@
                    &&& out@.len() == 1
                    &&& out@[0] matches ContentOutput::StartSearchTask(s) && s@ == search@
                },
                _ => final(self).last_search == old(self).last_search,
            },
            match action {
                OnlineContentAction::Download(id) => if no_item_with_id(old(results).items@, id) {
                    out@.len() == 0 && final(results).items@ == old(results).items@
                } else {
                    exists|i: int| first_with_id(old(results).items@, id, i)
                        && final(results).items@ == old(results).items@.remove(i)
                        && out@.len() == 1
                        && out@[0] == ContentOutput::Download(old(results).items@[i].download)
                },
                OnlineContentAction::AudioPreview(id) => final(results).items@ == old(results).items@
                    && if no_item_with_id(old(results).items@, id) {
                        out@.len() == 0
                    } else {
                        exists|i: int| first_with_id(old(results).items@, id, i)
                            && match old(results).items@[i].audio_preview {
                                Some(p) => {
                                    &&& out@.len() == 2
                                    &&& out@[0] is PushSongQueue
                                    &&& out@[1] matches ContentOutput::PreviewAudio(u) && u@ == p@
                                },
                                None => out@.len() == 0,
                            }
                    },
                _ => final(results).items@ == old(results).items@,
            },
    {
        let mut out: Vec<ContentOutput<D>> = Vec::new();
        match action {
            OnlineContentAction::NextPage => {
                if let Some(last) = &mut self.last_search {
                    last.page = last.page + 1;
                    out.push(ContentOutput::Search(last.duplicate()));
                }
            },
            OnlineContentAction::PreviousPage => {
                if let Some(last) = &mut self.last_search {
                    if last.page != 0 {
                        last.page = last.page - 1;
                        out.push(ContentOutput::Search(last.duplicate()));
                    }
                }
            },
            OnlineContentAction::SetPage(page) => {
                if let Some(last) = &mut self.last_search {
                    last.page = page as u32;
                    out.push(ContentOutput::Search(last.duplicate()));
                }
            },
            OnlineContentAction::Search(search) => {
                self.last_search = Some(search.duplicate());
                out.push(ContentOutput::StartSearchTask(search));
            },
            OnlineContentAction::Download(id) => {
                if let Some(index) = find_item(&results.items, id) {
                    let item = results.items.remove(index);
                    out.push(ContentOutput::Download(item.download));
                }
            },
            OnlineContentAction::AudioPreview(id) => {
                if let Some(index) = find_item(&results.items, id) {
                    if let Some(preview) = &results.items[index].audio_preview {
                        out.push(ContentOutput::PushSongQueue);
                        out.push(ContentOutput::PreviewAudio(preview.clone()));
                    }
                }
            },
        }
        out
    }
}

} // verus!
