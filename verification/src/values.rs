use vstd::prelude::*;
use vstd::string::*;
use crate::multiplayer::{LobbyInfo, LobbyView, MultiplayerData};
use crate::text::same_text;

verus! {

/// What the game knows of a gamemode.
#[derive(Debug)]
pub struct GamemodeInfo {
    pub id: String,
    pub display_name: String,
}

/// The gamemodes the game has, in their order.
#[derive(Debug)]
pub struct GamemodeInfos {
    pub by_num: Vec<GamemodeInfo>,
}

/// The ids of some gamemodes.
pub open spec fn mode_ids(infos: Seq<GamemodeInfo>) -> Seq<Seq<char>> {
    infos.map_values(|g: GamemodeInfo| g.id@)
}

/// The display names of some gamemodes.
pub open spec fn mode_names(infos: Seq<GamemodeInfo>) -> Seq<Seq<char>> {
    infos.map_values(|g: GamemodeInfo| g.display_name@)
}

/// The display name of the first gamemode with the given id, if there is one.
pub open spec fn display_name_of(infos: Seq<GamemodeInfo>, id: Seq<char>) -> Option<Seq<char>> {
    match mode_ids(infos).index_of_first(id) {
        Some(i) => Some(infos[i].display_name@),
        None => None,
    }
}

impl GamemodeInfos {
    /// The first gamemode with the given id.
    pub fn get_info(&self, id: &str) -> (info: Option<&GamemodeInfo>)
        ensures
            match info {
                Some(g) => display_name_of(self.by_num@, id@) == Some(g.display_name@) && g.id@ == id@,
                None => display_name_of(self.by_num@, id@) is None,
            },
    {
        let ghost ids = mode_ids(self.by_num@);
        for i in 0..self.by_num.len()
            invariant
                ids == mode_ids(self.by_num@),
                forall|j: int| 0 <= j < i ==> #[trigger] ids[j] != id@,
        {
            if same_text(self.by_num[i].id.as_str(), id) {
                assert(ids[i as int] == self.by_num@[i as int].id@);
                proof {
                    ids.index_of_first_ensures(id@);
                    let k = ids.index_of_first(id@)->0;
                    if k < i {
                        assert(ids[k] != id@);
                    }
                    if i < k {
                        assert(ids[i as int] != id@);
                    }
                }
                return Some(&self.by_num[i]);
            }
        }
        proof {
            assert(ids.len() == self.by_num@.len());
            ids.index_of_first_ensures(id@);
            if ids.contains(id@) {
                let k = choose|k: int| 0 <= k < ids.len() && ids[k] == id@;
                assert(ids[k] != id@);
            }
        }
        None
    }
}

/// Game-wide values the menus show: the lobby list, the playmode, the user.
#[derive(Debug)]
pub struct GlobalInfo<M> {
    pub mods: M,
    pub lobbies: Vec<LobbyInfo>,
    pub gamemode_infos: GamemodeInfos,
    pub playmode: String,
    pub playmode_display: String,
    pub playmode_actual: String,
    pub playmode_actual_display: String,
    pub username: String,
    pub user_id: u32,
    pub logged_in: bool,
    pub menu_list: Vec<String>,
    pub new_beatmap_hash: Option<u128>,
}

impl<M> GlobalInfo<M> {
    /// Sets the selected playmode, and its display name when the gamemode is known (an
    /// unknown playmode keeps the old display name).
    pub fn update_playmode(&mut self, playmode: String)
        ensures
            final(self).playmode == playmode,
            final(self).playmode_display@ == match display_name_of(old(self).gamemode_infos.by_num@, playmode@) {
                Some(n) => n,
                None => old(self).playmode_display@,
            },
            final(self).playmode_actual == old(self).playmode_actual,
            final(self).playmode_actual_display == old(self).playmode_actual_display,
            final(self).gamemode_infos == old(self).gamemode_infos,
            final(self).lobbies == old(self).lobbies,
            final(self).username == old(self).username,
            final(self).mods == old(self).mods,
            final(self).user_id == old(self).user_id,
            final(self).logged_in == old(self).logged_in,
            final(self).menu_list == old(self).menu_list,
            final(self).new_beatmap_hash == old(self).new_beatmap_hash,
    {
        let display = match self.gamemode_infos.get_info(playmode.as_str()) {
            Some(info) => Some(info.display_name.clone()),
            None => None,
        };
        self.playmode = playmode;
        if let Some(d) = display {
            self.playmode_display = d;
        }
    }

    /// Sets the playmode actually played (a beatmap may force its own), and its display
    /// name when the gamemode is known.
    pub fn update_playmode_actual(&mut self, playmode: String)
        ensures
            final(self).playmode_actual == playmode,
            final(self).playmode_actual_display@ == match display_name_of(old(self).gamemode_infos.by_num@, playmode@) {
                Some(n) => n,
                None => old(self).playmode_actual_display@,
            },
            final(self).playmode == old(self).playmode,
            final(self).playmode_display == old(self).playmode_display,
            final(self).gamemode_infos == old(self).gamemode_infos,
            final(self).lobbies == old(self).lobbies,
            final(self).username == old(self).username,
            final(self).mods == old(self).mods,
            final(self).user_id == old(self).user_id,
            final(self).logged_in == old(self).logged_in,
            final(self).menu_list == old(self).menu_list,
            final(self).new_beatmap_hash == old(self).new_beatmap_hash,
    {
        let display = match self.gamemode_infos.get_info(playmode.as_str()) {
            Some(info) => Some(info.display_name.clone()),
            None => None,
        };
        self.playmode_actual = playmode;
        if let Some(d) = display {
            self.playmode_actual_display = d;
        }
    }

    /// The values at startup: the user from the settings, and the last played mode as both
    /// the selected and the actual playmode.
    pub fn new(gamemode_infos: GamemodeInfos, mods: M, username: String, last_played_mode: String) -> (g: GlobalInfo<M>)
        ensures
            g.gamemode_infos == gamemode_infos,
            g.mods == mods,
            g.username == username,
            g.playmode@ == last_played_mode@,
            g.playmode_actual@ == last_played_mode@,
            g.playmode_display@ == match display_name_of(gamemode_infos.by_num@, last_played_mode@) {
                Some(n) => n,
                None => Seq::empty(),
            },
            g.playmode_actual_display@ == match display_name_of(gamemode_infos.by_num@, last_played_mode@) {
                Some(n) => n,
                None => Seq::empty(),
            },
            g.lobbies@ == Seq::<LobbyInfo>::empty(),
            g.user_id == 0,
            !g.logged_in,
            g.menu_list@ == Seq::<String>::empty(),
            g.new_beatmap_hash is None,
    {
        let mut g = GlobalInfo {
            mods,
            lobbies: Vec::new(),
            gamemode_infos,
            playmode: String::new(),
            playmode_display: String::new(),
            playmode_actual: String::new(),
            playmode_actual_display: String::new(),
            username,
            user_id: 0,
            logged_in: false,
            menu_list: Vec::new(),
            new_beatmap_hash: None,
        };
        g.update_playmode(last_played_mode.clone());
        g.update_playmode_actual(last_played_mode);
        g
    }
}

/// The choices the menus offer: sortings, groupings, score sources and playmodes.
#[derive(Debug)]
pub struct EnumInfo<S, G, R> {
    pub sort_by: Vec<S>,
    pub group_by: Vec<G>,
    pub score_methods: Vec<R>,
    pub playmodes: Vec<String>,
    pub playmodes_display: Vec<String>,
}

impl<S, G, R> EnumInfo<S, G, R> {
    /// The given choice lists, and every gamemode's id and display name, in order.
    pub fn new(infos: &GamemodeInfos, sort_by: Vec<S>, group_by: Vec<G>, score_methods: Vec<R>) -> (e: EnumInfo<S, G, R>)
        ensures
            e.sort_by == sort_by,
            e.group_by == group_by,
            e.score_methods == score_methods,
            crate::text::string_views(e.playmodes@) == mode_ids(infos.by_num@),
            crate::text::string_views(e.playmodes_display@) == mode_names(infos.by_num@),
    {
        let mut playmodes: Vec<String> = Vec::new();
        let mut playmodes_display: Vec<String> = Vec::new();
        for i in 0..infos.by_num.len()
            invariant
                crate::text::string_views(playmodes@) == mode_ids(infos.by_num@).take(i as int),
                crate::text::string_views(playmodes_display@) == mode_names(infos.by_num@).take(i as int),
        {
            assert(mode_ids(infos.by_num@).take(i + 1) =~= mode_ids(infos.by_num@).take(i as int).push(
                infos.by_num@[i as int].id@,
            ));
            assert(mode_names(infos.by_num@).take(i + 1) =~= mode_names(infos.by_num@).take(i as int).push(
                infos.by_num@[i as int].display_name@,
            ));
            playmodes.push(infos.by_num[i].id.clone());
            playmodes_display.push(infos.by_num[i].display_name.clone());
            assert(crate::text::string_views(playmodes@) =~= mode_ids(infos.by_num@).take(i + 1));
            assert(crate::text::string_views(playmodes_display@) =~= mode_names(infos.by_num@).take(i + 1));
        }
        assert(mode_ids(infos.by_num@).take(infos.by_num@.len() as int) =~= mode_ids(infos.by_num@));
        assert(mode_names(infos.by_num@).take(infos.by_num@.len() as int) =~= mode_names(infos.by_num@));
        EnumInfo { sort_by, group_by, score_methods, playmodes, playmodes_display }
    }
}

/// The scores retrieved for the current beatmap, and whether they have loaded.
#[derive(Debug)]
pub struct ScoreList<S> {
    pub scores: Vec<S>,
    pub loaded: bool,
}

impl<S> ScoreList<S> {
    /// No scores, not loaded.
    pub fn new() -> (l: ScoreList<S>)
        ensures
            l.scores@ == Seq::<S>::empty(),
            !l.loaded,
    {
        ScoreList { scores: Vec::new(), loaded: false }
    }
}

/// Whether a list holds exactly the lobbies of a lobby map: each listed lobby is in the
/// map, and each lobby of the map is listed.
pub open spec fn lists_lobbies(list: Seq<LobbyInfo>, m: Map<u32, LobbyView>) -> bool {
    &&& forall|i: int| 0 <= i < list.len() ==> m.values().contains(#[trigger] list[i]@)
    &&& forall|k: u32| #[trigger] m.dom().contains(k) ==> exists|i: int| 0 <= i < list.len() && list[i]@ == m[k]
}

impl MultiplayerData {
    /// Publishes the lobby list to the values the menus show: each lobby once.
    pub fn update_values<M>(&self, global: &mut GlobalInfo<M>)
        ensures
            crate::multiplayer::lists_each_lobby_once(final(global).lobbies@, self.lobbies_view()),
            final(global).lobbies@.len() == self.lobbies@.dom().len(),
            lists_lobbies(final(global).lobbies@, self.lobbies_view()),
            final(global).playmode == old(global).playmode,
            final(global).playmode_display == old(global).playmode_display,
            final(global).playmode_actual == old(global).playmode_actual,
            final(global).playmode_actual_display == old(global).playmode_actual_display,
            final(global).gamemode_infos == old(global).gamemode_infos,
            final(global).username == old(global).username,
            final(global).user_id == old(global).user_id,
            final(global).logged_in == old(global).logged_in,
            final(global).mods == old(global).mods,
    {
        let list = self.lobby_list();
        assert(lists_lobbies(list@, self.lobbies_view())) by {
            assert forall|k: u32| #[trigger] self.lobbies_view().dom().contains(k)
                implies exists|i: int| 0 <= i < list@.len() && list@[i]@ == self.lobbies_view()[k] by {
                assert(self.lobbies@.dom().contains(k));
            }
        }
        global.lobbies = list;
    }
}

} // verus!
