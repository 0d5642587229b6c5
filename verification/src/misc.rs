use vstd::prelude::*;
use vstd::string::*;
use crate::text::{decimal, push_decimal, same_text, split_on, split_text, string_views};

verus! {

/// The monitor a fullscreen window goes on.
#[derive(Clone, Copy, Debug, PartialEq, Eq, Structural)]
pub enum FullscreenMonitor {
    NoMonitor,
    Monitor(usize),
}

/// How a monitor choice reads, given the names of the monitors.
pub open spec fn monitor_text(m: FullscreenMonitor, monitors: Seq<String>) -> Seq<char> {
    match m {
        FullscreenMonitor::NoMonitor => "none"@,
        FullscreenMonitor::Monitor(n) => if n < monitors.len() {
            "("@ + decimal(n as nat) + "). "@ + monitors[n as int]@
        } else {
            "None"@
        },
    }
}

impl FullscreenMonitor {
    /// The choices: no fullscreen monitor, then each monitor.
    pub fn variants(monitor_count: usize) -> (v: Vec<FullscreenMonitor>)
        ensures
            v@.len() == monitor_count + 1,
            v@[0] == FullscreenMonitor::NoMonitor,
            forall|i: int| 0 <= i < monitor_count ==> #[trigger] v@[i + 1] == FullscreenMonitor::Monitor(i as usize),
    {
        let mut v: Vec<FullscreenMonitor> = Vec::new();
        v.push(FullscreenMonitor::NoMonitor);
        for i in 0..monitor_count
            invariant
                v@.len() == i + 1,
                v@[0] == FullscreenMonitor::NoMonitor,
                forall|j: int| 0 <= j < i ==> #[trigger] v@[j + 1] == FullscreenMonitor::Monitor(j as usize),
        {
            v.push(FullscreenMonitor::Monitor(i));
        }
        v
    }

    /// How the choice reads: `none`, or `(n). name` for a monitor that exists (`None` for
    /// one that does not).
    pub fn display(&self, monitors: &Vec<String>) -> (s: String)
        ensures
            s@ == monitor_text(*self, monitors@),
    {
        match self {
            FullscreenMonitor::NoMonitor => String::from_str("none"),
            FullscreenMonitor::Monitor(n) => {
                if *n < monitors.len() {
                    let mut s = String::from_str("(");
                    push_decimal(&mut s, *n as u64);
                    s.append("). ");
                    s.append(monitors[*n].as_str());
                    s
                } else {
                    String::from_str("None")
                }
            },
        }
    }
}

/// What the window tells the game. `V` is a size, `S` the screenshot's details and `I`
/// an input event, all as the window hands them.
#[derive(Debug)]
pub enum Window2GameEvent<V, S, I> {
    GotFocus,
    LostFocus,
    Minimized,
    Closed,
    SizeChanged(V),
    FileHover(String),
    FileDrop(String),
    ScreenshotComplete(Vec<u8>, [u32; 2], S),
    Input(I),
}

/// How a spectated game is shown.
#[derive(Clone, Copy, Debug, PartialEq, Eq, Structural)]
pub enum SpectatorWatchAction {
    FullMenu,
    OpenDialog,
    MultiSpec,
}

/// The ranked status of beatmaps searched for online.
#[derive(Clone, Copy, Debug, PartialEq, Eq, Structural)]
pub enum MapStatus {
    All,
    Ranked,
    Pending,
    Graveyarded,
    Approved,
    Loved,
}

impl MapStatus {
    /// The status searched for unless another is chosen.
    pub fn default_status() -> (s: MapStatus)
        ensures
            s == MapStatus::Ranked,
    {
        MapStatus::Ranked
    }
}

/// How online search results are sorted.
#[derive(Clone, Copy, Debug, PartialEq, Eq, Structural)]
pub enum SortMethod {
    Default,
}

/// The beatmaps the game ignores, as kept in its database.
#[derive(Debug)]
pub struct Database {}

/// The rows of a query that could be read, in order.
pub open spec fn readable_rows<E>(rows: Seq<Result<String, E>>) -> Seq<String>
    decreases rows.len(),
{
    if rows.len() == 0 {
        Seq::empty()
    } else {
        readable_rows(rows.drop_last()) + match rows.last() {
            Ok(p) => seq![p],
            Err(_) => Seq::empty(),
        }
    }
}

impl Database {
    /// The query listing the ignored beatmaps.
    pub fn ignored_query() -> (q: String)
        ensures
            q@ == "SELECT * FROM ignore_maps"@,
    {
        String::from_str("SELECT * FROM ignore_maps")
    }

    /// The ignored beatmap paths among the rows the query returned: rows that could not be
    /// read are skipped.
    pub fn get_all_ignored<E>(rows: Vec<Result<String, E>>) -> (paths: Vec<String>)
        ensures
            paths@ == readable_rows(rows@),
    {
        let mut paths: Vec<String> = Vec::new();
        let ghost all = rows@;
        assert(all.take(0) =~= Seq::<Result<String, E>>::empty());
        for row in it: rows
            invariant
                it.seq() == all,
                paths@ == readable_rows(all.take(it.index() as int)),
        {
            let ghost i = it.index();
            assert(all.take(i + 1).drop_last() =~= all.take(i as int));
            assert(all.take(i + 1).last() == row);
            let ghost before = paths@;
            match row {
                Ok(p) => {
                    paths.push(p);
                    assert(paths@ =~= before + seq![p]);
                },
                Err(_) => {
                    assert(paths@ =~= before + Seq::<String>::empty());
                },
            }
        }
        assert(all.take(all.len() as int) =~= all);
        paths
    }

    /// The statement that adds a beatmap path to the ignored ones (with an empty hash),
    /// and its parameters.
    pub fn add_ignored(path: String) -> (r: (String, Vec<String>))
        ensures
            r.0@ == "INSERT INTO ignore_maps (beatmap_path, beatmap_hash) VALUES (?, '')"@,
            r.1@ == seq![path],
    {
        let mut params: Vec<String> = Vec::new();
        params.push(path);
        assert(params@ =~= seq![path]);
        (String::from_str("INSERT INTO ignore_maps (beatmap_path, beatmap_hash) VALUES (?, '')"), params)
    }
}

/// What is sent to check a Last.fm login.
#[derive(Debug)]
pub struct LastFmAuthRequest {
    pub username: String,
    pub password: String,
}

/// What is sent to tell Last.fm what is playing.
#[derive(Debug)]
pub struct LastFmNowPlayingRequest {
    pub username: String,
    pub password: String,
    pub artist: String,
    pub track: String,
}

/// Last.fm scrobbling, through the score server.
#[derive(Debug)]
pub struct LastFmIntegration {}

impl LastFmIntegration {
    /// The integration's name.
    pub fn name(&self) -> (s: String)
        ensures
            s@ == "LastFm"@,
    {
        String::from_str("LastFm")
    }

    /// Where and what to post to check the Last.fm login.
    pub fn check(score_url: &str, username: String, password: String) -> (r: (String, LastFmAuthRequest))
        ensures
            r.0@ == score_url@ + "/lastfm/check"@,
            r.1.username == username,
            r.1.password == password,
    {
        let mut url = String::from_str(score_url);
        url.append("/lastfm/check");
        (url, LastFmAuthRequest { username, password })
    }

    /// Where and what to post when a song starts.
    pub fn update(score_url: &str, track: String, artist: String, username: String, password: String) -> (r: (
        String,
        LastFmNowPlayingRequest,
    ))
        ensures
            r.0@ == score_url@ + "/lastfm/set_now_playing"@,
            r.1 == (LastFmNowPlayingRequest { username, password, artist, track }),
    {
        let mut url = String::from_str(score_url);
        url.append("/lastfm/set_now_playing");
        (url, LastFmNowPlayingRequest { username, password, artist, track })
    }
}

/// A beatmap set being downloaded: its file name, the download's progress (`P`, as the
/// downloader reports it) and what to do once it is done (`A`).
#[derive(Debug)]
pub struct Downloadable<P, A> {
    pub filename: String,
    pub download_progress: Option<P>,
    pub on_complete: Option<A>,
}

/// What the download list shows of a download; `F` is the progress fraction.
#[derive(Debug)]
pub struct DownloadStatus<F> {
    pub filename: String,
    pub title: String,
    pub downloading: bool,
    pub completed: bool,
    pub progress: Option<F>,
}

/// What the downloader reports of a download: its progress fraction and whether it is
/// complete.
#[derive(Debug)]
pub struct ProgressReport<F> {
    pub progress: F,
    pub complete: bool,
}

/// The downloads in progress, each with its status.
#[derive(Debug)]
pub struct DownloadManager<P, A, F> {
    pub downloads: Vec<Downloadable<P, A>>,
    pub statuses: Vec<DownloadStatus<F>>,
}

/// The file names of some downloads.
pub open spec fn download_names<P, A>(d: Seq<Downloadable<P, A>>) -> Seq<Seq<char>> {
    d.map_values(|x: Downloadable<P, A>| x.filename@)
}

/// Whether a download finishes in this update: it is complete and was not yet marked so.
pub open spec fn finishes<F>(status: DownloadStatus<F>, report: Option<ProgressReport<F>>) -> bool {
    report matches Some(r) && r.complete && !status.completed
}

impl<P, A, F> DownloadManager<P, A, F> {
    /// Each download has its status.
    pub open spec fn wf(&self) -> bool {
        self.downloads@.len() == self.statuses@.len()
    }

    /// No downloads.
    pub fn new() -> (m: DownloadManager<P, A, F>)
        ensures
            m.wf(),
            m.downloads@ == Seq::<Downloadable<P, A>>::empty(),
    {
        DownloadManager { downloads: Vec::new(), statuses: Vec::new() }
    }

    /// Whether a file is already being downloaded.
    pub fn has_download(&self, filename: &String) -> (b: bool)
        ensures
            b == download_names(self.downloads@).contains(filename@),
    {
        for i in 0..self.downloads.len()
            invariant
                forall|j: int| 0 <= j < i ==> #[trigger] self.downloads@[j].filename@ != filename@,
        {
            if self.downloads[i].filename.eq(filename) {
                assert(download_names(self.downloads@)[i as int] == filename@);
                return true;
            }
        }
        proof {
            if download_names(self.downloads@).contains(filename@) {
                let j = choose|j: int| 0 <= j < self.downloads@.len() && #[trigger] download_names(self.downloads@)[j] == filename@;
                assert(self.downloads@[j].filename@ != filename@);
            }
        }
        false
    }

    /// Adds a download, started with the given progress, unless that file is already being
    /// downloaded; its status starts idle at no progress. Returns whether it was added.
    pub fn add_download(&mut self, filename: String, progress: P, on_complete: Option<A>) -> (added: bool)
        requires
            old(self).wf(),
        ensures
            final(self).wf(),
            added == !download_names(old(self).downloads@).contains(filename@),
            !added ==> *final(self) == *old(self),
            added ==> {
                &&& final(self).downloads@ == old(self).downloads@.push(
                    Downloadable { filename: final(self).downloads@.last().filename, download_progress: Some(progress), on_complete },
                )
                &&& final(self).downloads@.last().filename@ == filename@
                &&& final(self).statuses@.len() == old(self).statuses@.len() + 1
                &&& forall|i: int| 0 <= i < old(self).statuses@.len() ==> final(self).statuses@[i] == old(self).statuses@[i]
                &&& final(self).statuses@.last().filename@ == filename@
                &&& final(self).statuses@.last().title@ == filename@
                &&& !final(self).statuses@.last().downloading
                &&& !final(self).statuses@.last().completed
                &&& final(self).statuses@.last().progress is None
            },
    {
        if self.has_download(&filename) {
            return false;
        }
        self.statuses.push(DownloadStatus {
            filename: filename.clone(),
            title: filename.clone(),
            downloading: false,
            completed: false,
            progress: None,
        });
        self.downloads.push(Downloadable { filename, download_progress: Some(progress), on_complete });
        true
    }

    /// Takes the downloader's reports, one per download (`None` while a download has no
    /// progress yet): statuses follow them, and the downloads that complete now are taken
    /// out with their statuses and returned, in order, for the caller to save their data
    /// and run what follows them.
    pub fn update(&mut self, reports: Vec<Option<ProgressReport<F>>>) -> (done: Vec<Downloadable<P, A>>)
        requires
            old(self).wf(),
            reports@.len() == old(self).downloads@.len(),
        ensures
            final(self).wf(),
            ({
                let (kept, kept_statuses, finished) = update_split(
                    old(self).downloads@,
                    old(self).statuses@,
                    reports@,
                    old(self).downloads@.len(),
                );
                &&& final(self).downloads@ == kept
                &&& status_views(final(self).statuses@) == kept_statuses
                &&& done@ == finished
            }),
    {
        let ghost ds = self.downloads@;
        let ghost ss = self.statuses@;
        let ghost rs = reports@;
        let mut downloads: Vec<Downloadable<P, A>> = Vec::new();
        let mut statuses: Vec<DownloadStatus<F>> = Vec::new();
        std::mem::swap(&mut downloads, &mut self.downloads);
        std::mem::swap(&mut statuses, &mut self.statuses);
        let mut done: Vec<Downloadable<P, A>> = Vec::new();
        let mut reports = reports;
        let n = downloads.len();
        let mut i: usize = 0;
        assert(ds.skip(0) =~= ds);
        assert(ss.skip(0) =~= ss);
        assert(rs.skip(0) =~= rs);
        assert(status_views(self.statuses@) =~= Seq::<StatusView<F>>::empty());
        while i < n
            invariant
                n == ds.len(),
                ds.len() == ss.len(),
                rs.len() == ds.len(),
                i <= n,
                downloads@ == ds.skip(i as int),
                statuses@ == ss.skip(i as int),
                reports@ == rs.skip(i as int),
                ({
                    let (kept, kept_statuses, finished) = update_split(ds, ss, rs, i as nat);
                    &&& self.downloads@ == kept
                    &&& status_views(self.statuses@) == kept_statuses
                    &&& done@ == finished
                }),
                self.downloads@.len() == self.statuses@.len(),
            decreases n - i,
        {
            let dl = downloads.remove(0);
            let mut status = statuses.remove(0);
            let report = reports.remove(0);
            assert(ds.skip(i as int).remove(0) =~= ds.skip(i + 1));
            assert(ss.skip(i as int).remove(0) =~= ss.skip(i + 1));
            assert(rs.skip(i as int).remove(0) =~= rs.skip(i + 1));
            let ghost old_status = status;
            let ghost kept_before = status_views(self.statuses@);
            status.filename = dl.filename.clone();
            status.downloading = dl.download_progress.is_some();
            let finished = match report {
                None => false,
                Some(r) => {
                    status.progress = Some(r.progress);
                    r.complete && !status.completed
                },
            };
            assert(status@ == updated_status(dl, old_status, report));
            if finished {
                done.push(dl);
            } else {
                self.downloads.push(dl);
                self.statuses.push(status);
                assert(status_views(self.statuses@) =~= kept_before.push(status@));
            }
            i = i + 1;
        }
        done
    }
}

/// What the download list shows of a download, as values.
pub struct StatusView<F> {
    pub filename: Seq<char>,
    pub title: Seq<char>,
    pub downloading: bool,
    pub completed: bool,
    pub progress: Option<F>,
}

impl<F> View for DownloadStatus<F> {
    type V = StatusView<F>;

    open spec fn view(&self) -> StatusView<F> {
        StatusView {
            filename: self.filename@,
            title: self.title@,
            downloading: self.downloading,
            completed: self.completed,
            progress: self.progress,
        }
    }
}

/// The views of some statuses.
pub open spec fn status_views<F>(s: Seq<DownloadStatus<F>>) -> Seq<StatusView<F>> {
    s.map_values(|x: DownloadStatus<F>| x@)
}

/// A download's status after a report.
pub open spec fn updated_status<P, A, F>(
    d: Downloadable<P, A>,
    s: DownloadStatus<F>,
    r: Option<ProgressReport<F>>,
) -> StatusView<F> {
    StatusView {
        filename: d.filename@,
        title: s.title@,
        downloading: d.download_progress is Some,
        completed: s.completed,
        progress: match r {
            Some(r) => Some(r.progress),
            None => s.progress,
        },
    }
}

/// The first `n` downloads after an update, split into those that go on (with their
/// updated statuses) and those that finish.
pub open spec fn update_split<P, A, F>(
    ds: Seq<Downloadable<P, A>>,
    ss: Seq<DownloadStatus<F>>,
    rs: Seq<Option<ProgressReport<F>>>,
    n: nat,
) -> (Seq<Downloadable<P, A>>, Seq<StatusView<F>>, Seq<Downloadable<P, A>>)
    decreases n,
{
    if n == 0 {
        (Seq::empty(), Seq::empty(), Seq::empty())
    } else {
        let (kept, kept_statuses, finished) = update_split(ds, ss, rs, (n - 1) as nat);
        let i = n - 1;
        if finishes(ss[i], rs[i]) {
            (kept, kept_statuses, finished.push(ds[i]))
        } else {
            (kept.push(ds[i]), kept_statuses.push(updated_status(ds[i], ss[i], rs[i])), finished)
        }
    }
}

/// The positions `0..n`, in order.
pub open spec fn positions(n: nat) -> Seq<int> {
    Seq::new(n, |j: int| j)
}

/// The test for a download position that goes on after the reports (it does not finish).
pub open spec fn goes_on<F>(ss: Seq<DownloadStatus<F>>, rs: Seq<Option<ProgressReport<F>>>) -> spec_fn(int) -> bool {
    |j: int| !finishes(ss[j], rs[j])
}

/// The test for a download position that finishes with the reports.
pub open spec fn ends_now<F>(ss: Seq<DownloadStatus<F>>, rs: Seq<Option<ProgressReport<F>>>) -> spec_fn(int) -> bool {
    |j: int| finishes(ss[j], rs[j])
}

/// An update keeps the downloads that do not finish, in the order they had, each with its
/// own updated status at the same position, and hands out the ones that finish, in their
/// order: over the first `n` downloads, the kept ones are those at the positions that go
/// on, and the finished ones those at the positions that finish.
pub proof fn law_update_keeps_order<P, A, F>(
    ds: Seq<Downloadable<P, A>>,
    ss: Seq<DownloadStatus<F>>,
    rs: Seq<Option<ProgressReport<F>>>,
    n: nat,
)
    requires
        n <= ds.len(),
        ds.len() == ss.len(),
        ds.len() == rs.len(),
    ensures
        ({
            let (kept, kept_statuses, finished) = update_split(ds, ss, rs, n);
            let on = positions(n).filter(goes_on(ss, rs));
            &&& kept == on.map_values(|j: int| ds[j])
            &&& kept_statuses == on.map_values(|j: int| updated_status(ds[j], ss[j], rs[j]))
            &&& finished == positions(n).filter(ends_now(ss, rs)).map_values(|j: int| ds[j])
        }),
    decreases n,
{
    reveal(Seq::filter);
    if n == 0 {
        assert(positions(0) =~= Seq::<int>::empty());
        assert(positions(0).filter(goes_on(ss, rs)) =~= Seq::<int>::empty());
        assert(positions(0).filter(ends_now(ss, rs)) =~= Seq::<int>::empty());
    } else {
        let m = (n - 1) as nat;
        law_update_keeps_order(ds, ss, rs, m);
        let i = n - 1;
        assert(positions(n) =~= positions(m).push(i));
        assert(positions(n).drop_last() =~= positions(m));
        let on_m = positions(m).filter(goes_on(ss, rs));
        let end_m = positions(m).filter(ends_now(ss, rs));
        assert(positions(n).filter(goes_on(ss, rs)) == if goes_on(ss, rs)(i) { on_m.push(i) } else { on_m });
        assert(positions(n).filter(ends_now(ss, rs)) == if ends_now(ss, rs)(i) { end_m.push(i) } else { end_m });
        assert(on_m.push(i).map_values(|j: int| ds[j]) =~= on_m.map_values(|j: int| ds[j]).push(ds[i]));
        assert(on_m.push(i).map_values(|j: int| updated_status(ds[j], ss[j], rs[j]))
            =~= on_m.map_values(|j: int| updated_status(ds[j], ss[j], rs[j])).push(updated_status(ds[i], ss[i], rs[i])));
        assert(end_m.push(i).map_values(|j: int| ds[j]) =~= end_m.map_values(|j: int| ds[j]).push(ds[i]));
    }
}

/// What the beatmap list asks of the game.
#[derive(Debug)]
pub enum BeatmapListAction {
    /// select this beatmap, from its preview point, without restarting the song
    SetBeatmap(u128),
    /// select the beatmap with this hash, from its preview point, without restarting the song
    SetFromHash(u128),
    /// scroll the list to this set, out of this many
    ScrollTo { set: usize, of: usize },
}

/// A group of beatmaps in the list: the hashes of its maps, in order.
#[derive(Debug)]
pub struct BeatmapListGroup {
    pub name: String,
    pub number: usize,
    pub maps: Vec<u128>,
}

/// The next position in a list of `len`, going round (0 for an empty list).
pub open spec fn next_index(i: usize, len: usize) -> usize {
    if len == 0 || i + 1 >= len { 0 } else { (i + 1) as usize }
}

/// The previous position in a list of `len`, going round (0 for an empty list).
pub open spec fn prev_index(i: usize, len: usize) -> usize {
    if len == 0 { 0 } else if i == 0 || i > len { (len - 1) as usize } else { (i - 1) as usize }
}

/// Whether an ASCII upper-case letter.
pub open spec fn is_ascii_upper(c: char) -> bool {
    'A' <= c <= 'Z'
}

/// A character in ASCII lower case.
pub open spec fn ascii_lower(c: char) -> char {
    if is_ascii_upper(c) { ((c as u32) + 32) as char } else { c }
}

/// A string with its ASCII letters in lower case, through `str::to_ascii_lowercase`, which
/// maps `A`..`Z` to `a`..`z` and leaves every other character as it is.
#[verifier::external_body]
fn to_ascii_lowercase(s: &str) -> (r: String)
    ensures
        r@ == s@.map_values(|c: char| ascii_lower(c)),
{
    s.to_ascii_lowercase()
}

/// The words of a list filter: the filter in ASCII lower case, split at spaces, without
/// empty words.
pub open spec fn filter_words(filter: Seq<char>) -> Seq<Seq<char>> {
    split_on(filter.map_values(|c: char| ascii_lower(c)), ' ').filter(|w: Seq<char>| w.len() > 0)
}

/// For each group, whether it holds a map with the given hash.
pub open spec fn holding(groups: Seq<BeatmapListGroup>, hash: u128) -> Seq<bool> {
    groups.map_values(|g: BeatmapListGroup| g.maps@.contains(hash))
}

/// What selecting a map of a set asks: the map, if that set and map exist.
pub open spec fn map_pick(groups: Seq<BeatmapListGroup>, set: usize, map: usize) -> Seq<BeatmapListAction> {
    if set < groups.len() && map < groups[set as int].maps@.len() {
        seq![BeatmapListAction::SetBeatmap(groups[set as int].maps@[map as int])]
    } else {
        Seq::empty()
    }
}

/// What selecting a set asks: its first map, if any, then scrolling to it.
pub open spec fn set_pick(groups: Seq<BeatmapListGroup>, set: usize) -> Seq<BeatmapListAction> {
    map_pick(groups, set, 0) + seq![BeatmapListAction::ScrollTo { set, of: groups.len() as usize }]
}

/// What a list message does to a list with these groups and this selection: the selected
/// set and map after it, and the actions it asks for. Other messages change nothing.
pub open spec fn list_message(
    groups: Seq<BeatmapListGroup>,
    set: usize,
    map: usize,
    tag: Seq<char>,
    hash: Option<u128>,
    set_num: Option<usize>,
) -> (usize, usize, Seq<BeatmapListAction>) {
    let len = groups.len() as usize;
    if tag == "beatmap_list.set_beatmap"@ {
        (set, map, seq![BeatmapListAction::SetFromHash(hash->0)])
    } else if tag == "beatmap_list.set_set"@ {
        match set_num {
            Some(n) => (n, 0, set_pick(groups, n)),
            None => (set, map, Seq::empty()),
        }
    } else if tag == "beatmap_list.prev_map"@ {
        if set < groups.len() {
            let p = prev_index(map, groups[set as int].maps@.len() as usize);
            (set, p, map_pick(groups, set, p))
        } else {
            (set, map, Seq::empty())
        }
    } else if tag == "beatmap_list.next_map"@ {
        if set < groups.len() {
            let n = next_index(map, groups[set as int].maps@.len() as usize);
            (set, n, map_pick(groups, set, n))
        } else {
            (set, map, Seq::empty())
        }
    } else if tag == "beatmap_list.prev_set"@ {
        let p = prev_index(set, len);
        (p, 0, set_pick(groups, p))
    } else if tag == "beatmap_list.next_set"@ {
        let n = next_index(set, len);
        (n, 0, set_pick(groups, n))
    } else {
        (set, map, Seq::empty())
    }
}

/// The beatmap list of the song select menu: its groups and which map is selected.
#[derive(Debug)]
pub struct BeatmapListComponent {
    pub actions: Vec<BeatmapListAction>,
    pub filtered_groups: Vec<BeatmapListGroup>,
    /// the value holding the filter text, if the list is filtered
    pub filter_var: Option<String>,
    pub filter: String,
    pub selected_set: usize,
    pub selected_map: usize,
}

impl BeatmapListComponent {
    /// An empty list, filtered by the given value if any.
    pub fn new(filter: Option<String>) -> (c: BeatmapListComponent)
        ensures
            c.filter_var == filter,
            c.actions@.len() == 0,
            c.filtered_groups@.len() == 0,
            c.filter@ == Seq::<char>::empty(),
            c.selected_set == 0,
            c.selected_map == 0,
    {
        BeatmapListComponent {
            actions: Vec::new(),
            filtered_groups: Vec::new(),
            filter_var: filter,
            filter: String::new(),
            selected_set: 0,
            selected_map: 0,
        }
    }

    /// The words the list is filtered by.
    pub fn filter_words(&self) -> (words: Vec<String>)
        ensures
            string_views(words@) == filter_words(self.filter@),
    {
        let lower = to_ascii_lowercase(self.filter.as_str());
        let pieces = split_text(lower.as_str(), ' ');
        let ghost all = string_views(pieces@);
        let mut words: Vec<String> = Vec::new();
        assert(all.take(0).filter(|w: Seq<char>| w.len() > 0) =~= Seq::<Seq<char>>::empty()) by {
            reveal(Seq::filter);
        }
        for i in 0..pieces.len()
            invariant
                all == string_views(pieces@),
                string_views(words@) == all.take(i as int).filter(|w: Seq<char>| w.len() > 0),
        {
            proof { reveal(Seq::filter); }
            assert(all.take(i + 1).drop_last() =~= all.take(i as int));
            let ghost before = string_views(words@);
            if pieces[i].unicode_len() > 0 {
                words.push(pieces[i].clone());
                assert(string_views(words@) =~= before.push(pieces@[i as int]@));
            }
        }
        assert(all.take(all.len() as int) =~= all);
        words
    }

    /// The position of the first map with the given hash.
    fn find_map(maps: &Vec<u128>, hash: u128) -> (j: Option<usize>)
        ensures
            match j {
                Some(j) => maps@.index_of_first(hash) == Some(j as int),
                None => !maps@.contains(hash),
            },
    {
        for j in 0..maps.len()
            invariant
                forall|m: int| 0 <= m < j ==> #[trigger] maps@[m] != hash,
        {
            if maps[j] == hash {
                proof {
                    maps@.index_of_first_ensures(hash);
                    let k = maps@.index_of_first(hash)->0;
                    if k < j {
                        assert(maps@[k] != hash);
                    }
                    if j < k {
                        assert(maps@[j as int] != hash);
                    }
                }
                return Some(j);
            }
        }
        None
    }

    /// Numbers the groups in order and selects the first map with the current hash, in
    /// the first group holding it; the selection stays when no group holds it.
    pub fn number_and_select(&mut self, current_hash: u128)
        ensures
            final(self).filtered_groups@.len() == old(self).filtered_groups@.len(),
            forall|i: int| 0 <= i < final(self).filtered_groups@.len() ==> {
                &&& #[trigger] final(self).filtered_groups@[i].number == i
                &&& final(self).filtered_groups@[i].maps == old(self).filtered_groups@[i].maps
                &&& final(self).filtered_groups@[i].name == old(self).filtered_groups@[i].name
            },
            match holding(old(self).filtered_groups@, current_hash).index_of_first(true) {
                Some(g) => {
                    &&& final(self).selected_set == g
                    &&& Some(final(self).selected_map as int) == old(self).filtered_groups@[g].maps@.index_of_first(
                        current_hash,
                    )
                },
                None => final(self).selected_set == old(self).selected_set && final(self).selected_map
                    == old(self).selected_map,
            },
            final(self).actions == old(self).actions,
    {
        let ghost hs = holding(self.filtered_groups@, current_hash);
        let n = self.filtered_groups.len();
        let mut found = false;
        let mut k: usize = 0;
        while k < n
            invariant_except_break
                forall|m: int| 0 <= m < k ==> #[trigger] hs[m] != true,
                self.selected_set == old(self).selected_set,
                self.selected_map == old(self).selected_map,
                !found,
            invariant
                k <= n,
                n == self.filtered_groups@.len(),
                hs == holding(self.filtered_groups@, current_hash),
                self.filtered_groups == old(self).filtered_groups,
                self.actions == old(self).actions,
            ensures
                found ==> k < n && hs.index_of_first(true) == Some(k as int)
                    && Some(self.selected_map as int) == self.filtered_groups@[k as int].maps@.index_of_first(current_hash)
                    && self.selected_set == k,
                !found ==> (forall|m: int| 0 <= m < n ==> #[trigger] hs[m] != true) && self.selected_set
                    == old(self).selected_set && self.selected_map == old(self).selected_map,
                self.filtered_groups == old(self).filtered_groups,
                self.actions == old(self).actions,
            decreases n - k,
        {
            if let Some(j) = Self::find_map(&self.filtered_groups[k].maps, current_hash) {
                self.selected_set = k;
                self.selected_map = j;
                found = true;
                proof {
                    self.filtered_groups@[k as int].maps@.index_of_first_ensures(current_hash);
                    assert(hs[k as int] == true);
                    hs.index_of_first_ensures(true);
                    let f = hs.index_of_first(true)->0;
                    if f < k {
                        assert(hs[f] != true);
                    }
                    if k < f {
                        assert(hs[k as int] != true);
                    }
                }
                break;
            }
            k = k + 1;
        }
        proof {
            if !found {
                hs.index_of_first_ensures(true);
                if hs.contains(true) {
                    let m = choose|m: int| 0 <= m < hs.len() && hs[m] == true;
                    assert(hs[m] != true);
                }
            }
        }
        let mut groups: Vec<BeatmapListGroup> = Vec::new();
        std::mem::swap(&mut groups, &mut self.filtered_groups);
        let ghost old_groups = groups@;
        let ghost sel_set = self.selected_set;
        let ghost sel_map = self.selected_map;
        let total = groups.len();
        assert(old_groups.skip(0) =~= old_groups);
        for i in 0..total
            invariant
                total == old_groups.len(),
                groups@ == old_groups.skip(i as int),
                old_groups == old(self).filtered_groups@,
                self.filtered_groups@.len() == i,
                forall|j: int| 0 <= j < i ==> (#[trigger] self.filtered_groups@[j]).number == j
                    && self.filtered_groups@[j].maps == old_groups[j].maps
                    && self.filtered_groups@[j].name == old_groups[j].name,
                self.selected_set == sel_set,
                self.selected_map == sel_map,
                self.actions == old(self).actions,
        {
            let mut g = groups.remove(0);
            assert(old_groups.skip(i as int).remove(0) =~= old_groups.skip(i + 1));
            assert(g == old_groups[i as int]);
            g.number = i;
            self.filtered_groups.push(g);
            assert(self.filtered_groups@[i as int].maps == old_groups[i as int].maps);
        }
    }

    /// Selects a map of the selected set; a map that exists is set as the beatmap.
    pub fn select_map(&mut self, map_num: usize)
        ensures
            final(self).selected_map == map_num,
            final(self).selected_set == old(self).selected_set,
            final(self).filtered_groups == old(self).filtered_groups,
            final(self).filter == old(self).filter,
            final(self).actions@ == old(self).actions@ + map_pick(old(self).filtered_groups@, old(self).selected_set, map_num),
    {
        self.selected_map = map_num;
        if self.selected_set < self.filtered_groups.len() {
            let set = &self.filtered_groups[self.selected_set];
            if map_num < set.maps.len() {
                let h = set.maps[map_num];
                self.actions.push(BeatmapListAction::SetBeatmap(h));
                assert(self.actions@ =~= old(self).actions@ + seq![BeatmapListAction::SetBeatmap(h)]);
                return;
            }
        }
        assert(self.actions@ =~= old(self).actions@ + Seq::<BeatmapListAction>::empty());
    }

    /// Selects a set and its first map, and scrolls to it.
    pub fn select_set(&mut self, set_num: usize)
        ensures
            final(self).selected_set == set_num,
            final(self).selected_map == 0,
            final(self).filtered_groups == old(self).filtered_groups,
            final(self).filter == old(self).filter,
            final(self).actions@ == old(self).actions@ + set_pick(old(self).filtered_groups@, set_num),
    {
        self.selected_set = set_num;
        self.select_map(0);
        let ghost mid = self.actions@;
        let of = self.filtered_groups.len();
        self.actions.push(BeatmapListAction::ScrollTo { set: set_num, of });
        assert(self.actions@ =~= old(self).actions@ + set_pick(old(self).filtered_groups@, set_num));
    }

    /// Selects the next set, going round.
    pub fn next_set(&mut self)
        ensures
            final(self).selected_set == next_index(old(self).selected_set, old(self).filtered_groups@.len() as usize),
            final(self).selected_map == 0,
            final(self).filtered_groups == old(self).filtered_groups,
            final(self).filter == old(self).filter,
            final(self).actions@ == old(self).actions@ + set_pick(
                old(self).filtered_groups@,
                next_index(old(self).selected_set, old(self).filtered_groups@.len() as usize),
            ),
    {
        let len = self.filtered_groups.len();
        let i = self.selected_set;
        let next = if len == 0 || i >= len - 1 { 0 } else { i + 1 };
        self.select_set(next);
    }

    /// Selects the previous set, going round.
    pub fn prev_set(&mut self)
        ensures
            final(self).selected_set == prev_index(old(self).selected_set, old(self).filtered_groups@.len() as usize),
            final(self).selected_map == 0,
            final(self).filtered_groups == old(self).filtered_groups,
            final(self).filter == old(self).filter,
            final(self).actions@ == old(self).actions@ + set_pick(
                old(self).filtered_groups@,
                prev_index(old(self).selected_set, old(self).filtered_groups@.len() as usize),
            ),
    {
        let len = self.filtered_groups.len();
        let i = self.selected_set;
        let prev = if len == 0 { 0 } else if i == 0 || i > len { len - 1 } else { i - 1 };
        self.select_set(prev);
    }

    /// Selects the next map of the selected set, going round; nothing without a set.
    pub fn next_map(&mut self)
        ensures
            old(self).selected_set < old(self).filtered_groups@.len() ==> {
                let next = next_index(
                    old(self).selected_map,
                    old(self).filtered_groups@[old(self).selected_set as int].maps@.len() as usize,
                );
                &&& final(self).selected_map == next
                &&& final(self).actions@ == old(self).actions@ + map_pick(
                    old(self).filtered_groups@,
                    old(self).selected_set,
                    next,
                )
            },
            old(self).selected_set >= old(self).filtered_groups@.len() ==> *final(self) == *old(self),
            final(self).selected_set == old(self).selected_set,
            final(self).filtered_groups == old(self).filtered_groups,
            final(self).filter == old(self).filter,
    {
        if self.selected_set >= self.filtered_groups.len() {
            return;
        }
        let len = self.filtered_groups[self.selected_set].maps.len();
        let i = self.selected_map;
        let next = if len == 0 || i >= len - 1 { 0 } else { i + 1 };
        self.select_map(next);
    }

    /// Selects the previous map of the selected set, going round; nothing without a set.
    pub fn prev_map(&mut self)
        ensures
            old(self).selected_set < old(self).filtered_groups@.len() ==> {
                let prev = prev_index(
                    old(self).selected_map,
                    old(self).filtered_groups@[old(self).selected_set as int].maps@.len() as usize,
                );
                &&& final(self).selected_map == prev
                &&& final(self).actions@ == old(self).actions@ + map_pick(
                    old(self).filtered_groups@,
                    old(self).selected_set,
                    prev,
                )
            },
            old(self).selected_set >= old(self).filtered_groups@.len() ==> *final(self) == *old(self),
            final(self).selected_set == old(self).selected_set,
            final(self).filtered_groups == old(self).filtered_groups,
            final(self).filter == old(self).filter,
    {
        if self.selected_set >= self.filtered_groups.len() {
            return;
        }
        let len = self.filtered_groups[self.selected_set].maps.len();
        let i = self.selected_map;
        let prev = if len == 0 { 0 } else if i == 0 || i > len { len - 1 } else { i - 1 };
        self.select_map(prev);
    }

    /// Handles a list message and hands over every action waiting, those it asked for
    /// last: `"beatmap_list.set_beatmap"` with a hash selects that beatmap,
    /// `"beatmap_list.set_set"` with a number selects that set, and
    /// `"beatmap_list.prev_map"`, `.next_map`, `.prev_set`, `.next_set` move the selection.
    /// A set message without a number hands over nothing and keeps the actions waiting.
    pub fn handle_message(&mut self, tag: &str, hash: Option<u128>, set_num: Option<usize>) -> (actions: Vec<BeatmapListAction>)
        requires
            tag@ == "beatmap_list.set_beatmap"@ ==> hash is Some,
        ensures
            ({
                let (set, map, asked) = list_message(
                    old(self).filtered_groups@,
                    old(self).selected_set,
                    old(self).selected_map,
                    tag@,
                    hash,
                    set_num,
                );
                &&& final(self).selected_set == set
                &&& final(self).selected_map == map
                &&& if tag@ != "beatmap_list.set_beatmap"@ && tag@ == "beatmap_list.set_set"@ && set_num is None {
                        actions@.len() == 0 && final(self).actions@ == old(self).actions@
                    } else {
                        actions@ == old(self).actions@ + asked && final(self).actions@.len() == 0
                    }
            }),
            final(self).filtered_groups == old(self).filtered_groups,
            final(self).filter == old(self).filter,
    {
        let ghost r = list_message(
            old(self).filtered_groups@,
            old(self).selected_set,
            old(self).selected_map,
            tag@,
            hash,
            set_num,
        );
        if same_text(tag, "beatmap_list.set_beatmap") {
            if let Some(h) = hash {
                self.actions.push(BeatmapListAction::SetFromHash(h));
                assert(self.actions@ =~= old(self).actions@ + seq![BeatmapListAction::SetFromHash(h)]);
            }
        } else if same_text(tag, "beatmap_list.set_set") {
            if let Some(n) = set_num {
                self.select_set(n);
            } else {
                return Vec::new();
            }
        } else if same_text(tag, "beatmap_list.prev_map") {
            self.prev_map();
        } else if same_text(tag, "beatmap_list.next_map") {
            self.next_map();
        } else if same_text(tag, "beatmap_list.prev_set") {
            self.prev_set();
        } else if same_text(tag, "beatmap_list.next_set") {
            self.next_set();
        }
        assert(self.selected_set == r.0 && self.selected_map == r.1);
        assert(self.actions@ =~= old(self).actions@ + r.2);
        let mut actions: Vec<BeatmapListAction> = Vec::new();
        std::mem::swap(&mut actions, &mut self.actions);
        actions
    }
}


/// Moving through a list of `len` positions: the next position after `i` is `i + 1`
/// and the previous one before `i + 1` is `i`, inside the list; past the last position
/// the next one is the first, and before the first the previous one is the last.
pub proof fn law_next_prev_steps(i: usize, len: usize)
    ensures
        i + 1 < len ==> next_index(i, len) == i + 1 && prev_index((i + 1) as usize, len) == i,
        len > 0 ==> next_index((len - 1) as usize, len) == 0 && prev_index(0, len) == len - 1,
{
}

/// Going to the next position and back, or back and then to the next, returns to where
/// the selection was, in a list that holds that position.
pub proof fn law_next_prev_inverse(i: usize, len: usize)
    requires
        i < len,
    ensures
        prev_index(next_index(i, len), len) == i,
        next_index(prev_index(i, len), len) == i,
{
}

} // verus!
