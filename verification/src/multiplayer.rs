use vstd::prelude::*;
use std::collections::HashMap;
use vstd::std_specs::iter::IteratorSpec;

verus! {

broadcast use vstd::std_specs::hash::group_hash_axioms;

/// Whether a lobby is waiting in its lobby screen or playing a map.
#[derive(Clone, Copy, Debug, PartialEq, Eq, Structural)]
pub enum LobbyState {
    Idle,
    Playing,
}

/// What a player in a lobby is doing.
#[derive(Clone, Copy, Debug, PartialEq, Eq, Structural)]
pub enum LobbyUserState {
    NoMap,
    InLobby,
    Ready,
    Playing,
}

/// Summary of a multiplayer lobby, as shown in the lobby list.
#[derive(Debug)]
pub struct LobbyInfo {
    pub id: u32,
    pub name: String,
    pub host: u32,
    pub players: Vec<u32>,
    pub has_password: bool,
    pub current_beatmap: Option<String>,
    pub state: LobbyState,
}

/// The mathematical value of a [`LobbyInfo`].
#[verifier::ext_equal]
pub struct LobbyView {
    pub id: u32,
    pub name: Seq<char>,
    pub host: u32,
    pub players: Seq<u32>,
    pub has_password: bool,
    pub current_beatmap: Option<Seq<char>>,
    pub state: LobbyState,
}

/// The view of an optional string.
pub open spec fn opt_str_view(s: Option<String>) -> Option<Seq<char>> {
    match s {
        Some(s) => Some(s@),
        None => None,
    }
}

impl View for LobbyInfo {
    type V = LobbyView;

    open spec fn view(&self) -> LobbyView {
        LobbyView {
            id: self.id,
            name: self.name@,
            host: self.host,
            players: self.players@,
            has_password: self.has_password,
            current_beatmap: opt_str_view(self.current_beatmap),
            state: self.state,
        }
    }
}

/// A copy of an optional string.
pub fn copy_opt_string(s: &Option<String>) -> (r: Option<String>)
    ensures
        opt_str_view(r) == opt_str_view(*s),
{
    match s {
        Some(s) => Some(s.clone()),
        None => None,
    }
}

/// A copy of a list of user ids.
pub fn copy_ids(v: &Vec<u32>) -> (r: Vec<u32>)
    ensures
        r@ == v@,
{
    let mut r: Vec<u32> = Vec::new();
    for i in 0..v.len()
        invariant
            r@ == v@.take(i as int),
    {
        r.push(v[i]);
        assert(r@ =~= v@.take(i + 1));
    }
    assert(r@ =~= v@);
    r
}

/// A list of user ids without any occurrence of one id.
pub fn without_id(v: &Vec<u32>, user_id: u32) -> (r: Vec<u32>)
    ensures
        r@ == v@.filter(other_than(user_id)),
{
    let mut r: Vec<u32> = Vec::new();
    for i in 0..v.len()
        invariant
            r@ == v@.take(i as int).filter(other_than(user_id)),
    {
        proof { reveal(Seq::filter); }
        assert(v@.take(i + 1).drop_last() =~= v@.take(i as int));
        if v[i] != user_id {
            r.push(v[i]);
        }
    }
    assert(v@.take(v.len() as int) =~= v@);
    r
}

impl LobbyInfo {
    /// A copy of this lobby summary.
    pub fn duplicate(&self) -> (r: LobbyInfo)
        ensures
            r@ == self@,
    {
        LobbyInfo {
            id: self.id,
            name: self.name.clone(),
            host: self.host,
            players: copy_ids(&self.players),
            has_password: self.has_password,
            current_beatmap: copy_opt_string(&self.current_beatmap),
            state: self.state,
        }
    }
}

/// The lobby list the game keeps while the lobby browser is open.
#[derive(Debug)]
pub struct MultiplayerData {
    pub lobbies: HashMap<u32, LobbyInfo>,
    pub lobby_creation_pending: bool,
    pub lobby_join_pending: bool,
}

/// Views of every lobby in a map of lobbies.
pub open spec fn lobby_views(m: Map<u32, LobbyInfo>) -> Map<u32, LobbyView> {
    m.map_values(|l: LobbyInfo| l@)
}

/// The map a lobby list builds: each lobby under its id, later entries replacing earlier ones.
pub open spec fn lobby_list_map(s: Seq<LobbyView>) -> Map<u32, LobbyView>
    decreases s.len(),
{
    if s.len() == 0 {
        Map::empty()
    } else {
        lobby_list_map(s.drop_last()).insert(s.last().id, s.last())
    }
}

/// A lobby with a user added to its player list.
pub open spec fn with_player(l: LobbyView, user_id: u32) -> LobbyView {
    LobbyView { players: l.players.push(user_id), ..l }
}

/// The test that keeps every user but one.
pub open spec fn other_than(user_id: u32) -> spec_fn(u32) -> bool {
    |u: u32| u != user_id
}

/// A lobby with every occurrence of a user removed from its player list.
pub open spec fn without_player(l: LobbyView, user_id: u32) -> LobbyView {
    LobbyView { players: l.players.filter(other_than(user_id)), ..l }
}

/// Applies `f` to the lobby with the given id, if there is one.
pub open spec fn update_lobby(
    m: Map<u32, LobbyView>,
    id: u32,
    f: spec_fn(LobbyView) -> LobbyView,
) -> Map<u32, LobbyView> {
    if m.contains_key(id) { m.insert(id, f(m[id])) } else { m }
}

impl MultiplayerData {
    /// The lobby list as a map of lobby views.
    pub open spec fn lobbies_view(&self) -> Map<u32, LobbyView> {
        lobby_views(self.lobbies@)
    }

    /// No lobbies and nothing pending.
    pub fn new() -> (d: MultiplayerData)
        ensures
            d.lobbies_view() == Map::<u32, LobbyView>::empty(),
            !d.lobby_creation_pending,
            !d.lobby_join_pending,
    {
        let d = MultiplayerData {
            lobbies: HashMap::new(),
            lobby_creation_pending: false,
            lobby_join_pending: false,
        };
        assert(d.lobbies_view() =~= Map::<u32, LobbyView>::empty());
        d
    }

    /// Forgets every lobby and any pending create or join request.
    pub fn clear(&mut self)
        ensures
            final(self).lobbies_view() == Map::<u32, LobbyView>::empty(),
            !final(self).lobby_creation_pending,
            !final(self).lobby_join_pending,
    {
        self.lobbies.clear();
        self.lobby_creation_pending = false;
        self.lobby_join_pending = false;
        assert(self.lobbies_view() =~= Map::<u32, LobbyView>::empty());
    }

    /// Stores a lobby under its id, replacing any lobby with that id.
    pub fn insert_lobby(&mut self, lobby: LobbyInfo)
        ensures
            final(self).lobbies_view() == old(self).lobbies_view().insert(lobby.id, lobby@),
            final(self).lobby_creation_pending == old(self).lobby_creation_pending,
            final(self).lobby_join_pending == old(self).lobby_join_pending,
    {
        let ghost before = self.lobbies@;
        self.lobbies.insert(lobby.id, lobby);
        assert(lobby_views(self.lobbies@) =~= lobby_views(before).insert(lobby.id, lobby@));
    }

    /// Stores a lobby under the given key.
    fn put(&mut self, key: u32, lobby: LobbyInfo)
        ensures
            final(self).lobbies_view() == old(self).lobbies_view().insert(key, lobby@),
            final(self).lobby_creation_pending == old(self).lobby_creation_pending,
            final(self).lobby_join_pending == old(self).lobby_join_pending,
    {
        let ghost before = self.lobbies@;
        self.lobbies.insert(key, lobby);
        assert(lobby_views(self.lobbies@) =~= lobby_views(before).insert(key, lobby@));
    }

    /// Removes the lobby with the given id, if any.
    pub fn remove_lobby(&mut self, lobby_id: u32)
        ensures
            final(self).lobbies_view() == old(self).lobbies_view().remove(lobby_id),
            final(self).lobby_creation_pending == old(self).lobby_creation_pending,
            final(self).lobby_join_pending == old(self).lobby_join_pending,
    {
        let ghost before = self.lobbies@;
        self.lobbies.remove(&lobby_id);
        assert(lobby_views(self.lobbies@) =~= lobby_views(before).remove(lobby_id));
    }

    /// Replaces the whole lobby list with the given lobbies.
    pub fn set_lobbies(&mut self, lobbies: Vec<LobbyInfo>)
        ensures
            final(self).lobbies_view() == lobby_list_map(lobbies@.map_values(|l: LobbyInfo| l@)),
            final(self).lobby_creation_pending == old(self).lobby_creation_pending,
            final(self).lobby_join_pending == old(self).lobby_join_pending,
    {
        let ghost views = lobbies@.map_values(|l: LobbyInfo| l@);
        self.lobbies.clear();
        assert(self.lobbies_view() =~= lobby_list_map(views.take(0)));
        let n = lobbies.len();
        let ghost creation = self.lobby_creation_pending;
        let ghost join = self.lobby_join_pending;
        for lobby in it: lobbies
            invariant
                n == views.len(),
                self.lobby_creation_pending == creation,
                self.lobby_join_pending == join,
                it.seq() == lobbies@,
                views == lobbies@.map_values(|l: LobbyInfo| l@),
                self.lobbies_view() == lobby_list_map(views.take(it.index() as int)),
        {
            let ghost i = it.index();
            assert(lobby == lobbies@[i as int]);
            assert(views.take(i + 1).drop_last() =~= views.take(i as int));
            self.insert_lobby(lobby);
        }
        assert(views.take(n as int) =~= views);
    }
    /// Adds a player to the lobby with the given id, if that lobby is known.
    pub fn add_player(&mut self, lobby_id: u32, user_id: u32)
        ensures
            final(self).lobbies_view() == update_lobby(
                old(self).lobbies_view(),
                lobby_id,
                |l: LobbyView| with_player(l, user_id),
            ),
            final(self).lobby_creation_pending == old(self).lobby_creation_pending,
            final(self).lobby_join_pending == old(self).lobby_join_pending,
    {
        let ghost before = self.lobbies_view();
        if let Some(mut lobby) = self.lobbies.remove(&lobby_id) {
            assert(lobby@ == before[lobby_id]);
            assert(self.lobbies_view() =~= before.remove(lobby_id));
            lobby.players.push(user_id);
            assert(lobby@ =~= with_player(before[lobby_id], user_id));
            self.put(lobby_id, lobby);
            assert(self.lobbies_view() =~= before.insert(lobby_id, with_player(before[lobby_id], user_id)));
        } else {
            assert(self.lobbies_view() =~= before);
        }
    }

    /// Removes a player from the lobby with the given id, if that lobby is known.
    pub fn remove_player(&mut self, lobby_id: u32, user_id: u32)
        ensures
            final(self).lobbies_view() == update_lobby(
                old(self).lobbies_view(),
                lobby_id,
                |l: LobbyView| without_player(l, user_id),
            ),
            final(self).lobby_creation_pending == old(self).lobby_creation_pending,
            final(self).lobby_join_pending == old(self).lobby_join_pending,
    {
        let ghost before = self.lobbies_view();
        if let Some(mut lobby) = self.lobbies.remove(&lobby_id) {
            assert(lobby@ == before[lobby_id]);
            assert(self.lobbies_view() =~= before.remove(lobby_id));
            lobby.players = without_id(&lobby.players, user_id);
            assert(lobby@ =~= without_player(before[lobby_id], user_id));
            self.put(lobby_id, lobby);
            assert(self.lobbies_view() =~= before.insert(lobby_id, without_player(before[lobby_id], user_id)));
        } else {
            assert(self.lobbies_view() =~= before);
        }
    }

    /// Records the map a lobby switched to.
    pub fn set_lobby_map(&mut self, lobby_id: u32, title: String)
        ensures
            final(self).lobbies_view() == update_lobby(
                old(self).lobbies_view(),
                lobby_id,
                |l: LobbyView| LobbyView { current_beatmap: Some(title@), ..l },
            ),
            final(self).lobby_creation_pending == old(self).lobby_creation_pending,
            final(self).lobby_join_pending == old(self).lobby_join_pending,
    {
        let ghost before = self.lobbies_view();
        if let Some(mut lobby) = self.lobbies.remove(&lobby_id) {
            assert(lobby@ == before[lobby_id]);
            assert(self.lobbies_view() =~= before.remove(lobby_id));
            lobby.current_beatmap = Some(title);
            assert(lobby@ =~= LobbyView { current_beatmap: Some(title@), ..before[lobby_id] });
            self.put(lobby_id, lobby);
            assert(self.lobbies_view() =~= before.insert(lobby_id, LobbyView { current_beatmap: Some(title@), ..before[lobby_id] }));
        } else {
            assert(self.lobbies_view() =~= before);
        }
    }

    /// Records the state a lobby switched to.
    pub fn set_lobby_state(&mut self, lobby_id: u32, state: LobbyState)
        ensures
            final(self).lobbies_view() == update_lobby(
                old(self).lobbies_view(),
                lobby_id,
                |l: LobbyView| LobbyView { state: state, ..l },
            ),
            final(self).lobby_creation_pending == old(self).lobby_creation_pending,
            final(self).lobby_join_pending == old(self).lobby_join_pending,
    {
        let ghost before = self.lobbies_view();
        if let Some(mut lobby) = self.lobbies.remove(&lobby_id) {
            assert(lobby@ == before[lobby_id]);
            assert(self.lobbies_view() =~= before.remove(lobby_id));
            lobby.state = state;
            assert(lobby@ =~= LobbyView { state: state, ..before[lobby_id] });
            self.put(lobby_id, lobby);
            assert(self.lobbies_view() =~= before.insert(lobby_id, LobbyView { state: state, ..before[lobby_id] }));
        } else {
            assert(self.lobbies_view() =~= before);
        }
    }

    /// Marks a known lobby as joinable without a password (used after an invite).
    pub fn clear_password(&mut self, lobby_id: u32)
        ensures
            final(self).lobbies_view() == update_lobby(
                old(self).lobbies_view(),
                lobby_id,
                |l: LobbyView| LobbyView { has_password: false, ..l },
            ),
            final(self).lobby_creation_pending == old(self).lobby_creation_pending,
            final(self).lobby_join_pending == old(self).lobby_join_pending,
    {
        let ghost before = self.lobbies_view();
        if let Some(mut lobby) = self.lobbies.remove(&lobby_id) {
            assert(lobby@ == before[lobby_id]);
            assert(self.lobbies_view() =~= before.remove(lobby_id));
            lobby.has_password = false;
            assert(lobby@ =~= LobbyView { has_password: false, ..before[lobby_id] });
            self.put(lobby_id, lobby);
            assert(self.lobbies_view() =~= before.insert(lobby_id, LobbyView { has_password: false, ..before[lobby_id] }));
        } else {
            assert(self.lobbies_view() =~= before);
        }
    }

    /// Every known lobby, once each, in the order the map yields them.
    pub fn lobby_list(&self) -> (r: Vec<LobbyInfo>)
        ensures
            lists_each_lobby_once(r@, self.lobbies_view()),
            r@.len() == self.lobbies@.dom().len(),
            forall|i: int| 0 <= i < r@.len() ==> self.lobbies_view().values().contains(#[trigger] r@[i]@),
            forall|k: u32| #[trigger] self.lobbies@.dom().contains(k) ==>
                exists|i: int| 0 <= i < r@.len() && r@[i]@ == self.lobbies_view()[k],
    {
        let mut r: Vec<LobbyInfo> = Vec::new();
        let keys = self.lobbies.keys();
        let ghost ks = keys.remaining().unref();
        assert(ks.to_set() == self.lobbies@.dom());
        assert(ks.no_duplicates());
        for k in it: keys
            invariant
                it.seq().unref() == ks,
                ks.to_set() == self.lobbies@.dom(),
                r@.len() == it.index(),
                forall|i: int| 0 <= i < it.index() ==> #[trigger] r@[i]@ == self.lobbies_view()[ks[i]],
        {
            let ghost i = it.index();
            assert(ks[i as int] == *k);
            assert(ks.contains(*k));
            assert(self.lobbies@.dom().contains(*k));
            match self.lobbies.get(k) {
                Some(l) => r.push(l.duplicate()),
                None => {},
            }
        }
        let ghost m = self.lobbies_view();
        proof {
            assert(ks.len() == r@.len());
            assert forall|i: int| 0 <= i < r@.len() implies m.values().contains(#[trigger] r@[i]@) by {
                assert(ks.contains(ks[i]));
                assert(m.dom().contains(ks[i]));
            }
            assert forall|k: u32| #[trigger] self.lobbies@.dom().contains(k) implies
                exists|i: int| 0 <= i < r@.len() && r@[i]@ == m[k] by {
                assert(ks.to_set().contains(k));
                let j = choose|j: int| 0 <= j < ks.len() && ks[j] == k;
                assert(r@[j]@ == m[ks[j]]);
            }
            assert(lists_each_lobby_once(r@, m)) by {
                assert(ks.to_set() == m.dom());
            }
        }
        r
    }
}

/// Whether a list holds each lobby of a lobby map exactly once: its entries are the lobbies
/// of the map's ids, taken in some order with no id twice and every id once.
pub open spec fn lists_each_lobby_once(list: Seq<LobbyInfo>, m: Map<u32, LobbyView>) -> bool {
    exists|ids: Seq<u32>| {
        &&& ids.no_duplicates()
        &&& ids.to_set() == m.dom()
        &&& ids.len() == list.len()
        &&& forall|i: int| 0 <= i < list.len() ==> #[trigger] list[i]@ == m[ids[i]]
    }
}

/// A player slot of the lobby we are in.
#[derive(Clone, Copy, Debug, PartialEq, Eq, Structural)]
pub struct LobbyUser {
    pub user_id: u32,
    pub state: LobbyUserState,
}

/// Full information about the lobby we are in.
#[derive(Debug)]
pub struct FullLobbyInfo {
    pub id: u32,
    pub name: String,
    pub host: u32,
    pub players: Vec<LobbyUser>,
    pub current_beatmap: Option<String>,
    pub state: LobbyState,
}

/// The lobby we are currently in, with what we cache about it.
#[derive(Debug)]
pub struct CurrentLobbyInfo {
    /// what is our user id?
    pub our_user_id: u32,
    /// lobby information
    pub info: FullLobbyInfo,
    /// should we be loading the map?
    pub play_pending: bool,
    /// should we start playing the map?
    pub should_play: bool,
    /// score points of the players in the lobby, by user id
    pub player_scores: HashMap<u32, u64>,
    /// cache of lobby player usernames, by user id
    pub player_usernames: HashMap<u32, String>,
}

impl CurrentLobbyInfo {
    /// Entering a lobby: nothing pending, no scores or usernames cached yet.
    pub fn new(info: FullLobbyInfo, our_user_id: u32) -> (c: CurrentLobbyInfo)
        ensures
            c.our_user_id == our_user_id,
            c.info == info,
            !c.play_pending,
            !c.should_play,
            c.player_scores@ == Map::<u32, u64>::empty(),
            c.player_usernames@ == Map::<u32, String>::empty(),
    {
        CurrentLobbyInfo {
            our_user_id,
            info,
            play_pending: false,
            should_play: false,
            player_scores: HashMap::new(),
            player_usernames: HashMap::new(),
        }
    }

    /// Whether we host this lobby.
    pub fn is_host(&self) -> (b: bool)
        ensures
            b == (self.info.host == self.our_user_id),
    {
        self.info.host == self.our_user_id
    }

    /// Our own slot: the first player entry with our user id.
    pub fn our_user(&self) -> (u: Option<&LobbyUser>)
        ensures
            match u {
                Some(u) => exists|i: int|
                    0 <= i < self.info.players@.len()
                    && self.info.players@[i] == *u
                    && u.user_id == self.our_user_id
                    && forall|j: int| 0 <= j < i ==> self.info.players@[j].user_id != self.our_user_id,
                None => forall|i: int| 0 <= i < self.info.players@.len()
                    ==> #[trigger] self.info.players@[i].user_id != self.our_user_id,
            },
    {
        let players = &self.info.players;
        for i in 0..players.len()
            invariant
                players == &self.info.players,
                forall|j: int| 0 <= j < i ==> #[trigger] players@[j].user_id != self.our_user_id,
        {
            if players[i].user_id == self.our_user_id {
                return Some(&players[i]);
            }
        }
        None
    }
}

/// Multiplayer packets about lobbies that the game handles.
#[allow(inconsistent_fields)]
#[derive(Debug)]
pub enum MultiplayerPacket {
    LobbyList { lobbies: Vec<LobbyInfo> },
    CreateLobby { success: bool, lobby: Option<FullLobbyInfo> },
    JoinLobby { success: bool, lobby: Option<FullLobbyInfo> },
    LobbyCreated { lobby: LobbyInfo },
    LobbyDeleted { lobby_id: u32 },
    LobbyUserJoined { lobby_id: u32, user_id: u32 },
    LobbyUserLeft { lobby_id: u32, user_id: u32 },
    LobbyMapChange { lobby_id: u32, title: String },
    LobbyStateChange { lobby_id: u32, new_state: LobbyState },
    /// any packet that only the lobby itself cares about
    Other,
}

/// What the game must do after a lobby packet.
#[derive(Debug)]
pub enum LobbyPacketOutcome {
    Nothing,
    /// enter the given lobby (`created`: we created it, so we also send our current map)
    Entered { lobby: CurrentLobbyInfo, created: bool },
    /// we were removed from the lobby we were in
    Kicked,
}

/// The lobby list after a packet.
pub open spec fn lobbies_after(m: Map<u32, LobbyView>, packet: MultiplayerPacket) -> Map<u32, LobbyView> {
    match packet {
        MultiplayerPacket::LobbyList { lobbies } => lobby_list_map(lobbies@.map_values(|l: LobbyInfo| l@)),
        MultiplayerPacket::LobbyCreated { lobby } => m.insert(lobby.id, lobby@),
        MultiplayerPacket::LobbyDeleted { lobby_id } => m.remove(lobby_id),
        MultiplayerPacket::LobbyUserJoined { lobby_id, user_id } =>
            update_lobby(m, lobby_id, |l: LobbyView| with_player(l, user_id)),
        MultiplayerPacket::LobbyUserLeft { lobby_id, user_id } =>
            update_lobby(m, lobby_id, |l: LobbyView| without_player(l, user_id)),
        MultiplayerPacket::LobbyMapChange { lobby_id, title } =>
            update_lobby(m, lobby_id, |l: LobbyView| LobbyView { current_beatmap: Some(title@), ..l }),
        MultiplayerPacket::LobbyStateChange { lobby_id, new_state } =>
            update_lobby(m, lobby_id, |l: LobbyView| LobbyView { state: new_state, ..l }),
        _ => m,
    }
}

/// Whether a create/join answer lets us into a lobby.
pub open spec fn admits(success: bool, lobby: Option<FullLobbyInfo>, pending: bool, our_user_id: u32) -> bool {
    success && lobby is Some && pending && our_user_id != 0
}

impl MultiplayerData {
    /// Applies a lobby packet to the lobby list and says what the game must do next.
    ///
    /// `our_user_id` is our logged-in user id (0 when not logged in); `in_lobby_as` is our
    /// user id in the lobby we are in, if we are in one.
    pub fn handle_lobby_packet(
        &mut self,
        packet: MultiplayerPacket,
        our_user_id: u32,
        in_lobby_as: Option<u32>,
    ) -> (o: LobbyPacketOutcome)
        ensures
            final(self).lobbies_view() == lobbies_after(old(self).lobbies_view(), packet),
            final(self).lobby_creation_pending == old(self).lobby_creation_pending,
            final(self).lobby_join_pending == old(self).lobby_join_pending,
            match packet {
                MultiplayerPacket::CreateLobby { success, lobby } =>
                    if admits(success, lobby, old(self).lobby_creation_pending, our_user_id) {
                        o matches LobbyPacketOutcome::Entered { lobby: l, created }
                            && created && l.info == lobby->0 && l.our_user_id == our_user_id
                            && !l.play_pending && !l.should_play
                            && l.player_scores@.is_empty() && l.player_usernames@.is_empty()
                    } else {
                        o is Nothing
                    },
                MultiplayerPacket::JoinLobby { success, lobby } =>
                    if admits(success, lobby, old(self).lobby_join_pending, our_user_id) {
                        o matches LobbyPacketOutcome::Entered { lobby: l, created }
                            && !created && l.info == lobby->0 && l.our_user_id == our_user_id
                            && !l.play_pending && !l.should_play
                            && l.player_scores@.is_empty() && l.player_usernames@.is_empty()
                    } else {
                        o is Nothing
                    },
                MultiplayerPacket::LobbyUserLeft { lobby_id, user_id } =>
                    if in_lobby_as == Some(user_id) { o is Kicked } else { o is Nothing },
                _ => o is Nothing,
            },
    {
        let ghost before = self.lobbies_view();
        match packet {
            MultiplayerPacket::LobbyList { lobbies } => {
                self.set_lobbies(lobbies);
                LobbyPacketOutcome::Nothing
            },
            MultiplayerPacket::CreateLobby { success, lobby } => {
                assert(self.lobbies_view() =~= before);
                match lobby {
                    Some(lobby) if success => {
                        if !self.lobby_creation_pending || our_user_id == 0 {
                            return LobbyPacketOutcome::Nothing;
                        }
                        LobbyPacketOutcome::Entered {
                            lobby: CurrentLobbyInfo::new(lobby, our_user_id),
                            created: true,
                        }
                    },
                    _ => LobbyPacketOutcome::Nothing,
                }
            },
            MultiplayerPacket::JoinLobby { success, lobby } => {
                assert(self.lobbies_view() =~= before);
                match lobby {
                    Some(lobby) if success => {
                        if !self.lobby_join_pending || our_user_id == 0 {
                            return LobbyPacketOutcome::Nothing;
                        }
                        LobbyPacketOutcome::Entered {
                            lobby: CurrentLobbyInfo::new(lobby, our_user_id),
                            created: false,
                        }
                    },
                    _ => LobbyPacketOutcome::Nothing,
                }
            },
            MultiplayerPacket::LobbyCreated { lobby } => {
                self.insert_lobby(lobby);
                LobbyPacketOutcome::Nothing
            },
            MultiplayerPacket::LobbyDeleted { lobby_id } => {
                self.remove_lobby(lobby_id);
                LobbyPacketOutcome::Nothing
            },
            MultiplayerPacket::LobbyUserJoined { lobby_id, user_id } => {
                self.add_player(lobby_id, user_id);
                LobbyPacketOutcome::Nothing
            },
            MultiplayerPacket::LobbyUserLeft { lobby_id, user_id } => {
                self.remove_player(lobby_id, user_id);
                match in_lobby_as {
                    Some(us) if us == user_id => LobbyPacketOutcome::Kicked,
                    _ => LobbyPacketOutcome::Nothing,
                }
            },
            MultiplayerPacket::LobbyMapChange { lobby_id, title } => {
                self.set_lobby_map(lobby_id, title);
                LobbyPacketOutcome::Nothing
            },
            MultiplayerPacket::LobbyStateChange { lobby_id, new_state } => {
                self.set_lobby_state(lobby_id, new_state);
                LobbyPacketOutcome::Nothing
            },
            MultiplayerPacket::Other => {
                assert(self.lobbies_view() =~= before);
                LobbyPacketOutcome::Nothing
            },
        }
    }
}

/// What the player asks of multiplayer; `A` is an action for the lobby we are in.
#[derive(Debug)]
pub enum MultiplayerAction<A> {
    /// leave multiplayer altogether
    ExitMultiplayer,
    /// open the lobby browser
    StartMultiplayer,
    CreateLobby { name: String, password: String, private: bool, players: u8 },
    LeaveLobby,
    JoinLobby { lobby_id: u32, password: String },
    /// make the beatmap with this hash the lobby's (in the given mode, else the current one)
    SetBeatmap { hash: u128, mode: Option<String> },
    InviteUser { user_id: u32 },
    /// the lobby screen asked to leave
    LeaveFromLobby,
    /// any other action of the lobby screen
    LobbyAction(A),
}

/// A request about lobbies sent to the server.
#[derive(Debug)]
pub enum LobbyRequest {
    Create { name: String, password: String, private: bool, players: u8 },
    Leave,
    Join { lobby_id: u32, password: String },
}

/// The menus multiplayer switches to.
#[derive(Clone, Copy, Debug, PartialEq, Eq, Structural)]
pub enum MultiplayerMenu {
    MainMenu,
    LobbySelect,
}

/// One thing the game does for a multiplayer action.
#[derive(Debug)]
pub enum MultiplayerStep<A> {
    /// drop the lobby we are in
    ForgetLobby,
    Send(LobbyRequest),
    OpenMenu(MultiplayerMenu),
    /// start hearing about lobbies
    AddLobbyListener,
    /// stop hearing about lobbies
    RemoveLobbyListener,
    /// tell the lobby its beatmap, if the beatmap with this hash is known
    UpdateLobbyBeatmap { hash: u128, mode: String },
    InviteUser(u32),
    /// hand the action to the lobby we are in
    ForwardLobbyAction(A),
}

/// The steps of leaving a lobby.
pub open spec fn leave_steps<A>() -> Seq<MultiplayerStep<A>> {
    seq![
        MultiplayerStep::ForgetLobby,
        MultiplayerStep::Send(LobbyRequest::Leave),
        MultiplayerStep::OpenMenu(MultiplayerMenu::LobbySelect),
    ]
}

/// The steps of a multiplayer action, given the lobby we are in, whether we are playing,
/// and the current playmode.
pub open spec fn multiplayer_steps<A>(
    action: MultiplayerAction<A>,
    in_lobby: Option<u32>,
    ingame: bool,
    playmode_actual: String,
) -> Seq<MultiplayerStep<A>> {
    match action {
        MultiplayerAction::ExitMultiplayer =>
            leave_steps() + (if ingame { Seq::empty() } else { seq![MultiplayerStep::OpenMenu(MultiplayerMenu::MainMenu)] })
                + seq![MultiplayerStep::RemoveLobbyListener],
        MultiplayerAction::StartMultiplayer =>
            seq![MultiplayerStep::AddLobbyListener, MultiplayerStep::OpenMenu(MultiplayerMenu::LobbySelect)],
        MultiplayerAction::CreateLobby { name, password, private, players } =>
            seq![MultiplayerStep::Send(LobbyRequest::Create { name, password, private, players })],
        MultiplayerAction::LeaveLobby => leave_steps(),
        MultiplayerAction::JoinLobby { lobby_id, password } => match in_lobby {
            Some(current) => if current == lobby_id {
                Seq::empty()
            } else {
                leave_steps() + seq![MultiplayerStep::Send(LobbyRequest::Join { lobby_id, password })]
            },
            None => seq![MultiplayerStep::Send(LobbyRequest::Join { lobby_id, password })],
        },
        MultiplayerAction::SetBeatmap { hash, mode } => seq![MultiplayerStep::UpdateLobbyBeatmap {
            hash,
            mode: match mode { Some(m) => m, None => playmode_actual },
        }],
        MultiplayerAction::InviteUser { user_id } => seq![MultiplayerStep::InviteUser(user_id)],
        MultiplayerAction::LeaveFromLobby => leave_steps(),
        MultiplayerAction::LobbyAction(a) =>
            if in_lobby is Some { seq![MultiplayerStep::ForwardLobbyAction(a)] } else { Seq::empty() },
    }
}

/// Appends the steps of leaving a lobby.
fn push_leave_steps<A>(steps: &mut Vec<MultiplayerStep<A>>)
    ensures
        final(steps)@ == old(steps)@ + leave_steps::<A>(),
{
    steps.push(MultiplayerStep::ForgetLobby);
    steps.push(MultiplayerStep::Send(LobbyRequest::Leave));
    steps.push(MultiplayerStep::OpenMenu(MultiplayerMenu::LobbySelect));
    assert(steps@ =~= old(steps)@ + leave_steps::<A>());
}

impl MultiplayerData {
    /// Decides what a multiplayer action does. `in_lobby` is the id of the lobby we are in,
    /// `ingame` whether we are playing (leaving multiplayer then keeps the game going), and
    /// `playmode_actual` the mode a lobby beatmap is set in when none is given. Asking to
    /// create or join a lobby marks that request as pending; joining the lobby we are in
    /// does nothing more, and joining another one leaves ours first.
    pub fn handle_multiplayer_action<A>(
        &mut self,
        action: MultiplayerAction<A>,
        in_lobby: Option<u32>,
        ingame: bool,
        playmode_actual: String,
    ) -> (steps: Vec<MultiplayerStep<A>>)
        ensures
            steps@ == multiplayer_steps(action, in_lobby, ingame, playmode_actual),
            final(self).lobbies_view() == old(self).lobbies_view(),
            final(self).lobby_creation_pending == (old(self).lobby_creation_pending || action is CreateLobby),
            final(self).lobby_join_pending == (old(self).lobby_join_pending || action is JoinLobby),
    {
        let ghost spec_steps = multiplayer_steps(action, in_lobby, ingame, playmode_actual);
        let mut steps: Vec<MultiplayerStep<A>> = Vec::new();
        match action {
            MultiplayerAction::ExitMultiplayer => {
                push_leave_steps(&mut steps);
                if !ingame {
                    steps.push(MultiplayerStep::OpenMenu(MultiplayerMenu::MainMenu));
                }
                steps.push(MultiplayerStep::RemoveLobbyListener);
            },
            MultiplayerAction::StartMultiplayer => {
                steps.push(MultiplayerStep::AddLobbyListener);
                steps.push(MultiplayerStep::OpenMenu(MultiplayerMenu::LobbySelect));
            },
            MultiplayerAction::CreateLobby { name, password, private, players } => {
                self.lobby_creation_pending = true;
                steps.push(MultiplayerStep::Send(LobbyRequest::Create { name, password, private, players }));
            },
            MultiplayerAction::LeaveLobby => push_leave_steps(&mut steps),
            MultiplayerAction::JoinLobby { lobby_id, password } => {
                self.lobby_join_pending = true;
                let same = match in_lobby {
                    Some(current) => current == lobby_id,
                    None => false,
                };
                if !same {
                    if in_lobby.is_some() {
                        push_leave_steps(&mut steps);
                    }
                    steps.push(MultiplayerStep::Send(LobbyRequest::Join { lobby_id, password }));
                }
            },
            MultiplayerAction::SetBeatmap { hash, mode } => {
                let mode = match mode {
                    Some(m) => m,
                    None => playmode_actual,
                };
                steps.push(MultiplayerStep::UpdateLobbyBeatmap { hash, mode });
            },
            MultiplayerAction::InviteUser { user_id } => steps.push(MultiplayerStep::InviteUser(user_id)),
            MultiplayerAction::LeaveFromLobby => push_leave_steps(&mut steps),
            MultiplayerAction::LobbyAction(a) => {
                if in_lobby.is_some() {
                    steps.push(MultiplayerStep::ForwardLobbyAction(a));
                }
            },
        }
        assert(steps@ =~= spec_steps);
        steps
    }
}

/// A lobby that is created and then deleted leaves the lobby list as it would be had it
/// never been listed.
pub proof fn law_create_then_delete(m: Map<u32, LobbyView>, lobby: LobbyInfo)
    ensures
        lobbies_after(
            lobbies_after(m, MultiplayerPacket::LobbyCreated { lobby }),
            MultiplayerPacket::LobbyDeleted { lobby_id: lobby.id },
        ) == m.remove(lobby.id),
{
    assert(m.insert(lobby.id, lobby@).remove(lobby.id) =~= m.remove(lobby.id));
}

/// A player who joins a lobby and then leaves it is no longer among its players, and the
/// others stay as they were, in order.
pub proof fn law_join_then_leave(m: Map<u32, LobbyView>, lobby_id: u32, user_id: u32)
    ensures
        lobbies_after(
            lobbies_after(m, MultiplayerPacket::LobbyUserJoined { lobby_id, user_id }),
            MultiplayerPacket::LobbyUserLeft { lobby_id, user_id },
        ) == lobbies_after(m, MultiplayerPacket::LobbyUserLeft { lobby_id, user_id }),
{
    if m.contains_key(lobby_id) {
        let l = m[lobby_id];
        let p = l.players;
        reveal(Seq::filter);
        assert(p.push(user_id).drop_last() =~= p);
        assert(p.push(user_id).filter(other_than(user_id)) =~= p.filter(other_than(user_id)));
        assert(without_player(with_player(l, user_id), user_id) =~= without_player(l, user_id));
        assert(m.insert(lobby_id, with_player(l, user_id)).insert(lobby_id, without_player(with_player(l, user_id), user_id))
            =~= m.insert(lobby_id, without_player(l, user_id)));
    }
}

} // verus!
