use vstd::prelude::*;
use vstd::string::*;

verus! {

/// Where a playing sound is at.
#[derive(Clone, Copy, Debug, PartialEq, Eq, Structural)]
pub enum AudioState {
    Unknown,
    Playing,
    Paused,
    Stopped,
}

/// A command for a loaded sound or song; `V` is the audio engine's number type.
#[derive(Clone, Copy, Debug, PartialEq, Eq)]
pub enum AudioCommand<V> {
    /// play, from the start when `restart` is set
    Play { restart: bool },
    Pause,
    Stop,
    SetPosition(V),
    SetRate(V),
    SetVolume(V),
    SetRepeat(bool),
}

/// A loaded sound or song, as the audio engine hands it out. `Value` is the engine's
/// number type (positions, rates, volumes); `Data` is what it hands out for the
/// visualizers. The engine carries out the commands it is given and answers the
/// questions with what it reads at the time; nothing is stated of either.
pub trait AudioInstance<V> {
    type Data;

    fn command(&self, command: AudioCommand<V>);

    fn get_position(&self) -> V;

    fn get_state(&self) -> AudioState;

    fn get_data(&self) -> Self::Data;
}

/// Which song a command went to: the song that was current before the call, or the one
/// that is current after it.
#[derive(Clone, Copy, Debug, PartialEq, Eq, Structural)]
pub enum SongTarget {
    Replaced,
    Current,
}

/// How to start a song: whether to play it, from the start, and the position, rate and
/// volume to set.
#[derive(Debug)]
pub struct SongPlayData<V> {
    pub play: bool,
    pub restart: bool,
    pub position: Option<V>,
    pub rate: Option<V>,
    pub volume: Option<V>,
}

/// A song with the key it was loaded under (its path, or a key given with its data).
#[derive(Debug)]
pub struct SongData<A> {
    pub instance: A,
    pub id: String,
}

/// Where a song is loaded from.
#[derive(Debug)]
pub enum SongSource {
    File(String),
    Data(Vec<u8>),
}

/// What the song menu asks of the song manager.
#[derive(Debug)]
pub enum SongMenuSetAction<V> {
    /// stop and forget the current song
    Remove,
    /// pause the current song and keep it for later
    PushQueue,
    /// stop the current song and go back to the last one kept
    PopQueue,
    /// play the song at a path
    FromFile(String, SongPlayData<V>),
    /// play a song from its data, under a key
    FromData(Vec<u8>, String, SongPlayData<V>),
}

/// The current song, the songs put aside for later, and the visualizers fed by it.
#[derive(Debug)]
pub struct SongManager<A, H, V> {
    pub song_queue: Vec<SongData<A>>,
    pub current_song: Option<SongData<A>>,
    pub fft_hooks: Vec<H>,
    /// the engine's number type
    pub values: std::marker::PhantomData<V>,
}

/// The commands that set what the play data asks for beyond playing: position, rate
/// and volume, for those that are given.
pub open spec fn setting_commands<V>(p: SongPlayData<V>) -> Seq<AudioCommand<V>> {
    (match p.position { Some(x) => seq![AudioCommand::SetPosition(x)], None => Seq::empty() })
        + (match p.rate { Some(x) => seq![AudioCommand::SetRate(x)], None => Seq::empty() })
        + (match p.volume { Some(x) => seq![AudioCommand::SetVolume(x)], None => Seq::empty() })
}

/// The commands for play data: play (from the start when asked) when it says to play,
/// then the settings.
pub open spec fn param_commands<V>(p: SongPlayData<V>) -> Seq<AudioCommand<V>> {
    (if p.play { seq![AudioCommand::Play { restart: p.restart }] } else { Seq::empty() }) + setting_commands(p)
}

/// The commands, each addressed to `target`.
pub open spec fn targeted<V>(target: SongTarget, cmds: Seq<AudioCommand<V>>) -> Seq<(SongTarget, AudioCommand<V>)> {
    cmds.map_values(|c: AudioCommand<V>| (target, c))
}

/// Hands a command to an instance and records it.
fn send<V: Copy, A: AudioInstance<V>>(
    sent: &mut Vec<(SongTarget, AudioCommand<V>)>,
    target: SongTarget,
    instance: &A,
    command: AudioCommand<V>,
)
    ensures
        final(sent)@ == old(sent)@.push((target, command)),
{
    instance.command(command);
    sent.push((target, command));
}

/// Sets what the play data asks for on an instance.
fn apply_params<V: Copy, A: AudioInstance<V>>(
    sent: &mut Vec<(SongTarget, AudioCommand<V>)>,
    target: SongTarget,
    song: &A,
    params: SongPlayData<V>,
)
    ensures
        final(sent)@ == old(sent)@ + targeted(target, param_commands(params)),
{
    let ghost start = sent@;
    if params.play {
        send(sent, target, song, AudioCommand::Play { restart: params.restart });
    }
    if let Some(pos) = params.position {
        send(sent, target, song, AudioCommand::SetPosition(pos));
    }
    if let Some(rate) = params.rate {
        send(sent, target, song, AudioCommand::SetRate(rate));
    }
    if let Some(vol) = params.volume {
        send(sent, target, song, AudioCommand::SetVolume(vol));
    }
    assert(sent@ =~= start + targeted(target, param_commands(params)));
}

/// The items of `s` whose flag in `keep` is set, in order.
pub open spec fn kept_by<H>(s: Seq<H>, keep: Seq<bool>) -> Seq<H>
    decreases s.len(),
{
    if s.len() == 0 {
        Seq::empty()
    } else {
        kept_by(s.drop_last(), keep.drop_last()) + if keep.last() { seq![s.last()] } else { Seq::empty() }
    }
}

/// The items whose flag is set, in order: the visualizers that answered that they are
/// still there.
pub fn keep_alive<H>(hooks: Vec<H>, alive: &Vec<bool>) -> (r: Vec<H>)
    requires
        alive@.len() == hooks@.len(),
    ensures
        r@ == kept_by(hooks@, alive@),
{
    let ghost all = hooks@;
    let n: usize = hooks.len();
    let mut r: Vec<H> = Vec::new();
    let mut k: usize = 0;
    assert(all.take(0) =~= Seq::<H>::empty());
    assert(alive@.take(0) =~= Seq::<bool>::empty());
    for h in it: hooks
        invariant
            it.seq() == all,
            k == it.index(),
            k <= all.len(),
            all.len() == n,
            alive@.len() == all.len(),
            r@ == kept_by(all.take(k as int), alive@.take(k as int)),
    {
        assert(all.take(k + 1).drop_last() =~= all.take(k as int));
        assert(alive@.take(k + 1).drop_last() =~= alive@.take(k as int));
        assert(all[k as int] == h);
        if alive[k] {
            r.push(h);
        }
        k += 1;
    }
    assert(all.take(all.len() as int) =~= all);
    assert(alive@.take(all.len() as int) =~= alive@);
    r
}

/// Whether `alive` holds, hook by hook, an answer that each hook can give when it is
/// handed `data` and the amplitude multiplier `amp`.
pub open spec fn answered<D, V, H: Fn(&D, &V) -> bool>(hooks: Seq<H>, data: D, amp: V, alive: Seq<bool>) -> bool {
    &&& alive.len() == hooks.len()
    &&& forall|i: int| 0 <= i < alive.len() ==> call_ensures(hooks[i], (&data, &amp), #[trigger] alive[i])
}

/// Whether the song with the given key is the current one.
pub open spec fn is_current_key<A>(current: Option<SongData<A>>, key: Seq<char>) -> bool {
    current matches Some(s) && s.id@ == key
}

impl<V: Copy, A: AudioInstance<V>, H: Fn(&A::Data, &V) -> bool> SongManager<A, H, V> {
    /// No song, nothing queued, no visualizer.
    pub fn new() -> (m: SongManager<A, H, V>)
        ensures
            m.song_queue@ == Seq::<SongData<A>>::empty(),
            m.current_song is None,
            m.fft_hooks@ == Seq::<H>::empty(),
    {
        SongManager { song_queue: Vec::new(), current_song: None, fft_hooks: Vec::new(), values: std::marker::PhantomData }
    }

    /// Whether the song with the given key is the current one.
    pub fn is_current(&self, key: &String) -> (b: bool)
        ensures
            b == is_current_key(self.current_song, key@),
    {
        match &self.current_song {
            Some(s) => s.id.eq(key),
            None => false,
        }
    }

    /// Plays the song with the given key. If it is already the current song, nothing is
    /// loaded and it is only restarted when asked to (played from the start, then the
    /// settings). Otherwise `load` loads it; only when that succeeds does the old song
    /// stop, the new one get the play data's commands and become current. A failed load
    /// leaves everything as it was and sends nothing. The commands handed to the songs are
    /// appended to `sent`, in order.
    pub fn play_song<E>(
        &mut self,
        key: String,
        params: SongPlayData<V>,
        load: impl FnOnce() -> Result<A, E>,
        sent: &mut Vec<(SongTarget, AudioCommand<V>)>,
    ) -> (r: Result<(), E>)
        requires
            call_requires(load, ()),
        ensures
            final(self).song_queue == old(self).song_queue,
            final(self).fft_hooks == old(self).fft_hooks,
            is_current_key(old(self).current_song, key@) ==> {
                &&& r is Ok
                &&& final(self).current_song == old(self).current_song
                &&& final(sent)@ == old(sent)@ + if params.restart {
                    targeted(SongTarget::Current, seq![AudioCommand::Play { restart: true }] + setting_commands(params))
                } else {
                    Seq::empty()
                }
            },
            !is_current_key(old(self).current_song, key@) ==> match r {
                Ok(_) => {
                    &&& exists|song: A| #[trigger] call_ensures(load, (), Ok(song))
                        && final(self).current_song == Some(SongData { instance: song, id: key })
                    &&& final(sent)@ == old(sent)@
                        + (if old(self).current_song is Some { seq![(SongTarget::Replaced, AudioCommand::Stop)] } else { Seq::empty() })
                        + targeted(SongTarget::Current, param_commands(params))
                },
                Err(e) => {
                    &&& call_ensures(load, (), Err(e))
                    &&& final(self).current_song == old(self).current_song
                    &&& final(sent)@ == old(sent)@
                },
            },
    {
        let ghost start = sent@;
        if self.is_current(&key) {
            if params.restart {
                let params = SongPlayData { play: true, ..params };
                match &self.current_song {
                    Some(song) => apply_params(sent, SongTarget::Current, &song.instance, params),
                    None => {},
                }
                assert(param_commands(params) =~= seq![AudioCommand::Play { restart: true }] + setting_commands(params));
            } else {
                assert(sent@ =~= start + Seq::<(SongTarget, AudioCommand<V>)>::empty());
            }
            return Ok(());
        }
        let loaded = load();
        match loaded {
            Err(e) => Err(e),
            Ok(song) => {
                if let Some(s) = &self.current_song {
                    send(sent, SongTarget::Replaced, &s.instance, AudioCommand::Stop);
                } else {
                    assert(sent@ =~= start + Seq::<(SongTarget, AudioCommand<V>)>::empty());
                }
                apply_params(sent, SongTarget::Current, &song, params);
                self.current_song = Some(SongData { instance: song, id: key });
                Ok(())
            },
        }
    }

    /// Feeds the current song's data and the amplitude multiplier to the visualizers and
    /// forgets those that are gone, keeping the others in their order. A visualizer is a
    /// hook that takes the data and the multiplier and answers whether it is still there;
    /// without visualizers or without a song nothing happens. The data is what the engine
    /// hands out for the song at the time.
    pub fn update(&mut self, amplitude_multiplier: V)
        requires
            forall|i: int, d: A::Data, m: V| 0 <= i < old(self).fft_hooks@.len() ==> #[trigger] call_requires(old(self).fft_hooks@[i], (&d, &m)),
        ensures
            final(self).song_queue == old(self).song_queue,
            final(self).current_song == old(self).current_song,
            (old(self).fft_hooks@.len() == 0 || old(self).current_song is None) ==> final(self).fft_hooks
                == old(self).fft_hooks,
            (old(self).fft_hooks@.len() > 0 && old(self).current_song is Some) ==> exists|data: A::Data, alive: Seq<bool>| {
                &&& #[trigger] answered(old(self).fft_hooks@, data, amplitude_multiplier, alive)
                &&& final(self).fft_hooks@ == kept_by(old(self).fft_hooks@, alive)
            },
    {
        if self.fft_hooks.len() == 0 {
            return;
        }
        let data = match &self.current_song {
            Some(song) => song.instance.get_data(),
            None => return,
        };
        let n = self.fft_hooks.len();
        let mut alive: Vec<bool> = Vec::new();
        let mut i: usize = 0;
        while i < n
            invariant
                n == self.fft_hooks@.len(),
                self.fft_hooks == old(self).fft_hooks,
                self.song_queue == old(self).song_queue,
                self.current_song == old(self).current_song,
                forall|j: int, d: A::Data, m: V| 0 <= j < self.fft_hooks@.len() ==> #[trigger] call_requires(self.fft_hooks@[j], (&d, &m)),
                i <= n,
                alive@.len() == i,
                forall|j: int| 0 <= j < i ==> call_ensures(self.fft_hooks@[j], (&data, &amplitude_multiplier), #[trigger] alive@[j]),
            decreases n - i,
        {
            let hook = &self.fft_hooks[i];
            assert(call_requires(self.fft_hooks@[i as int], (&data, &amplitude_multiplier)));
            let a = hook(&data, &amplitude_multiplier);
            alive.push(a);
            i += 1;
        }
        assert(answered(old(self).fft_hooks@, data, amplitude_multiplier, alive@));
        let mut hooks: Vec<H> = Vec::new();
        std::mem::swap(&mut hooks, &mut self.fft_hooks);
        self.fft_hooks = keep_alive(hooks, &alive);
    }

    /// Carries out what the song menu asks: stop and forget the current song; pause it and
    /// put it aside; stop it and play (not from the start) the last song put aside; or
    /// play a song loaded through `load` (see [`SongManager::play_song`]). A failed load
    /// is returned and leaves everything as it was. The commands handed to the songs are
    /// appended to `sent`, in order.
    pub fn handle_song_set_action<E>(
        &mut self,
        action: SongMenuSetAction<V>,
        load: impl FnOnce(SongSource) -> Result<A, E>,
        sent: &mut Vec<(SongTarget, AudioCommand<V>)>,
    ) -> (r: Result<(), E>)
        requires
            forall|s: SongSource| call_requires(load, (s,)),
        ensures
            final(self).fft_hooks == old(self).fft_hooks,
            action is Remove ==> {
                &&& r is Ok
                &&& final(self).current_song is None
                &&& final(self).song_queue == old(self).song_queue
                &&& final(sent)@ == old(sent)@ + if old(self).current_song is Some {
                    seq![(SongTarget::Replaced, AudioCommand::Stop)]
                } else {
                    Seq::empty()
                }
            },
            action is PushQueue ==> {
                &&& r is Ok
                &&& final(self).current_song is None
                &&& final(self).song_queue@ == if old(self).current_song is Some {
                    old(self).song_queue@.push(old(self).current_song->0)
                } else {
                    old(self).song_queue@
                }
                &&& final(sent)@ == old(sent)@ + if old(self).current_song is Some {
                    seq![(SongTarget::Replaced, AudioCommand::Pause)]
                } else {
                    Seq::empty()
                }
            },
            action is PopQueue ==> {
                &&& r is Ok
                &&& old(self).song_queue@.len() > 0 ==> {
                    &&& final(self).current_song == Some(old(self).song_queue@.last())
                    &&& final(self).song_queue@ == old(self).song_queue@.drop_last()
                }
                &&& old(self).song_queue@.len() == 0 ==> {
                    &&& final(self).current_song is None
                    &&& final(self).song_queue@ == old(self).song_queue@
                }
                &&& final(sent)@ == old(sent)@
                    + (if old(self).current_song is Some { seq![(SongTarget::Replaced, AudioCommand::Stop)] } else { Seq::empty() })
                    + (if old(self).song_queue@.len() > 0 {
                        seq![(SongTarget::Current, AudioCommand::Play { restart: false })]
                    } else {
                        Seq::empty()
                    })
            },
            action matches SongMenuSetAction::FromFile(path, params) ==> {
                &&& final(self).song_queue == old(self).song_queue
                &&& is_current_key(old(self).current_song, path@) ==> {
                    &&& r is Ok
                    &&& final(self).current_song == old(self).current_song
                    &&& final(sent)@ == old(sent)@ + if params.restart {
                        targeted(SongTarget::Current, seq![AudioCommand::Play { restart: true }] + setting_commands(params))
                    } else {
                        Seq::empty()
                    }
                }
                &&& !is_current_key(old(self).current_song, path@) ==> match r {
                    Ok(_) => {
                        &&& exists|song: A| #[trigger] call_ensures(load, (SongSource::File(path),), Ok(song))
                            && final(self).current_song == Some(SongData { instance: song, id: path })
                        &&& final(sent)@ == old(sent)@
                            + (if old(self).current_song is Some { seq![(SongTarget::Replaced, AudioCommand::Stop)] } else { Seq::empty() })
                            + targeted(SongTarget::Current, param_commands(params))
                    },
                    Err(e) => {
                        &&& call_ensures(load, (SongSource::File(path),), Err(e))
                        &&& final(self).current_song == old(self).current_song
                        &&& final(sent)@ == old(sent)@
                    },
                }
            },
            action matches SongMenuSetAction::FromData(data, key, params) ==> {
                &&& final(self).song_queue == old(self).song_queue
                &&& is_current_key(old(self).current_song, key@) ==> {
                    &&& r is Ok
                    &&& final(self).current_song == old(self).current_song
                    &&& final(sent)@ == old(sent)@ + if params.restart {
                        targeted(SongTarget::Current, seq![AudioCommand::Play { restart: true }] + setting_commands(params))
                    } else {
                        Seq::empty()
                    }
                }
                &&& !is_current_key(old(self).current_song, key@) ==> match r {
                    Ok(_) => {
                        &&& exists|song: A| #[trigger] call_ensures(load, (SongSource::Data(data),), Ok(song))
                            && final(self).current_song == Some(SongData { instance: song, id: key })
                        &&& final(sent)@ == old(sent)@
                            + (if old(self).current_song is Some { seq![(SongTarget::Replaced, AudioCommand::Stop)] } else { Seq::empty() })
                            + targeted(SongTarget::Current, param_commands(params))
                    },
                    Err(e) => {
                        &&& call_ensures(load, (SongSource::Data(data),), Err(e))
                        &&& final(self).current_song == old(self).current_song
                        &&& final(sent)@ == old(sent)@
                    },
                }
            },
    {
        let ghost start = sent@;
        match action {
            SongMenuSetAction::Remove => {
                let mut current: Option<SongData<A>> = None;
                std::mem::swap(&mut current, &mut self.current_song);
                if let Some(song) = current {
                    send(sent, SongTarget::Replaced, &song.instance, AudioCommand::Stop);
                } else {
                    assert(sent@ =~= start + Seq::<(SongTarget, AudioCommand<V>)>::empty());
                }
                Ok(())
            },
            SongMenuSetAction::PushQueue => {
                let mut current: Option<SongData<A>> = None;
                std::mem::swap(&mut current, &mut self.current_song);
                if let Some(song) = current {
                    send(sent, SongTarget::Replaced, &song.instance, AudioCommand::Pause);
                    self.song_queue.push(song);
                } else {
                    assert(sent@ =~= start + Seq::<(SongTarget, AudioCommand<V>)>::empty());
                }
                Ok(())
            },
            SongMenuSetAction::PopQueue => {
                let mut current: Option<SongData<A>> = None;
                std::mem::swap(&mut current, &mut self.current_song);
                if let Some(song) = current {
                    send(sent, SongTarget::Replaced, &song.instance, AudioCommand::Stop);
                }
                let ghost mid = sent@;
                self.current_song = self.song_queue.pop();
                proof {
                    if old(self).song_queue@.len() > 0 {
                        assert(self.song_queue@ =~= old(self).song_queue@.drop_last());
                    }
                }
                if let Some(song) = &self.current_song {
                    send(sent, SongTarget::Current, &song.instance, AudioCommand::Play { restart: false });
                }
                assert(sent@ =~= start
                    + (if old(self).current_song is Some { seq![(SongTarget::Replaced, AudioCommand::Stop)] } else { Seq::empty() })
                    + (if old(self).song_queue@.len() > 0 {
                        seq![(SongTarget::Current, AudioCommand::<V>::Play { restart: false })]
                    } else {
                        Seq::empty()
                    }));
                Ok(())
            },
            SongMenuSetAction::FromFile(path, params) => {
                let source_path = path.clone();
                let load_file = move || -> (r: Result<A, E>)
                    requires
                        call_requires(load, (SongSource::File(source_path),)),
                    ensures
                        call_ensures(load, (SongSource::File(source_path),), r),
                    { load(SongSource::File(source_path)) };
                self.play_song(path, params, load_file, sent)
            },
            SongMenuSetAction::FromData(data, key, params) => {
                let load_data = move || -> (r: Result<A, E>)
                    requires
                        call_requires(load, (SongSource::Data(data),)),
                    ensures
                        call_ensures(load, (SongSource::Data(data),), r),
                    { load(SongSource::Data(data)) };
                self.play_song(key, params, load_data, sent)
            },
        }
    }

    /// Adds a visualizer to feed.
    pub fn hook_fft(&mut self, hook: H)
        ensures
            final(self).fft_hooks@ == old(self).fft_hooks@.push(hook),
            final(self).song_queue == old(self).song_queue,
            final(self).current_song == old(self).current_song,
    {
        self.fft_hooks.push(hook);
    }

    /// Where the current song is at; `None` when there is no song (position 0).
    pub fn position(&self) -> (p: Option<V>)
        ensures
            p is None <==> self.current_song is None,
    {
        match &self.current_song {
            Some(song) => Some(song.instance.get_position()),
            None => None,
        }
    }

    /// The state of the current song; stopped when there is none.
    pub fn state(&self) -> (s: AudioState)
        ensures
            self.current_song is None ==> s == AudioState::Stopped,
    {
        match &self.current_song {
            Some(song) => song.instance.get_state(),
            None => AudioState::Stopped,
        }
    }

    /// The current song's instance, if any.
    pub fn instance(&self) -> (i: Option<&A>)
        ensures
            match self.current_song {
                Some(s) => i == Some(&s.instance),
                None => i is None,
            },
    {
        match &self.current_song {
            Some(song) => Some(&song.instance),
            None => None,
        }
    }
}

/// What the game shows of the current song.
#[derive(Debug)]
pub struct SongInfo<V> {
    /// `None` stands for position 0
    pub position: Option<V>,
    pub paused: bool,
    pub playing: bool,
    pub stopped: bool,
    pub exists: bool,
    pub state: AudioState,
}

impl<V> SongInfo<V> {
    /// Records a new state, with its flags; says whether the state changed.
    pub fn set_state(&mut self, state: AudioState) -> (changed: bool)
        ensures
            changed == (old(self).state != state),
            final(self).position == old(self).position,
            !changed ==> *final(self) == *old(self),
            changed ==> {
                &&& final(self).state == state
                &&& final(self).paused == (state == AudioState::Paused)
                &&& final(self).playing == (state == AudioState::Playing)
                &&& final(self).stopped == (state == AudioState::Stopped)
                &&& final(self).exists == (state != AudioState::Unknown)
            },
    {
        if self.state == state {
            return false;
        }
        self.paused = state == AudioState::Paused;
        self.playing = state == AudioState::Playing;
        self.stopped = state == AudioState::Stopped;
        self.exists = self.paused || self.playing || self.stopped;
        self.state = state;
        true
    }

    /// Takes position and state from the current song, or marks that there is none.
    pub fn update<A: AudioInstance<V>>(&mut self, audio: Option<&A>)
        ensures
            audio is None ==> {
                &&& final(self).position is None
                &&& !final(self).exists
                &&& final(self).state == AudioState::Unknown
                &&& old(self).state != AudioState::Unknown ==> {
                    &&& !final(self).paused
                    &&& !final(self).playing
                    &&& !final(self).stopped
                }
            },
            audio is Some ==> final(self).position is Some && final(self).exists,
    {
        match audio {
            Some(audio) => {
                self.position = Some(audio.get_position());
                let state = audio.get_state();
                self.set_state(state);
                self.exists = true;
            },
            None => {
                self.position = None;
                self.set_state(AudioState::Unknown);
                self.exists = false;
            },
        }
    }
}

/// Where a sound comes from.
#[derive(Clone, Copy, Debug, PartialEq, Eq, Structural)]
pub enum HitsoundSource {
    Default,
    Beatmap,
    Skin,
}

/// A file to try for a sound, and where it comes from.
#[derive(Debug)]
pub struct SoundLoad {
    pub path: String,
    pub source: HitsoundSource,
}

/// What the game asks of a sound; `V` is the engine's number type.
#[derive(Debug)]
pub enum AudioActionType<V> {
    /// play the sound at the given volume (already scaled by the effect volume)
    Play { volume: V, repeat: bool, restart: bool },
    Stop,
    /// load the sound from the first of these files that loads
    Load { list: Vec<SoundLoad> },
    Unload,
}

/// An action on the sound with the given id.
#[derive(Debug)]
pub struct AudioAction<V> {
    pub id: String,
    pub action: AudioActionType<V>,
}

/// A loaded sound.
#[derive(Debug)]
pub struct SoundEntry<A> {
    pub sound: A,
    pub source: HitsoundSource,
}

/// The loaded sounds, by id.
#[derive(Debug)]
pub struct SoundManager<A> {
    pub sounds: Vec<(String, SoundEntry<A>)>,
}

/// The path `std::path::Path::join` gives for a file name under a folder, as a string.
pub uninterp spec fn path_join(dir: Seq<char>, file: Seq<char>) -> Seq<char>;

/// Joins a file name to a folder through `std::path::Path::join`, converted to a string
/// lossily. The contract says that the result is what `path_join` names for the two
/// arguments; what that is for given arguments is not stated.
#[verifier::external_body]
fn join_path(dir: &str, file: &str) -> (r: String)
    ensures
        r@ == path_join(dir@, file@),
{
    std::path::Path::new(dir).join(file).to_string_lossy().to_string()
}

/// Where a sound file is looked for: default sounds in the game's audio folder, the others
/// under the folder of the current beatmap or of the skin, when there is one.
pub open spec fn sound_path(
    load: SoundLoad,
    beatmap_dir: Option<String>,
    skin_dir: Option<String>,
) -> Option<Seq<char>> {
    match load.source {
        HitsoundSource::Default => Some("resources/audio/"@ + load.path@),
        HitsoundSource::Beatmap => match beatmap_dir {
            Some(d) => Some(path_join(d@, load.path@)),
            None => None,
        },
        HitsoundSource::Skin => match skin_dir {
            Some(d) => Some(path_join(d@, load.path@)),
            None => None,
        },
    }
}

/// The files to try for a sound, in order, with their sources.
pub open spec fn sound_candidates(
    list: Seq<SoundLoad>,
    beatmap_dir: Option<String>,
    skin_dir: Option<String>,
) -> Seq<(Seq<char>, HitsoundSource)>
    decreases list.len(),
{
    if list.len() == 0 {
        Seq::empty()
    } else {
        sound_candidates(list.drop_last(), beatmap_dir, skin_dir) + match sound_path(list.last(), beatmap_dir, skin_dir) {
            Some(p) => seq![(p, list.last().source)],
            None => Seq::empty(),
        }
    }
}

/// The views of a list of candidate files.
pub open spec fn candidate_views(c: Seq<(String, HitsoundSource)>) -> Seq<(Seq<char>, HitsoundSource)> {
    c.map_values(|x: (String, HitsoundSource)| (x.0@, x.1))
}

/// The ids of the loaded sounds.
pub open spec fn sound_ids<A>(sounds: Seq<(String, SoundEntry<A>)>) -> Seq<Seq<char>> {
    sounds.map_values(|x: (String, SoundEntry<A>)| x.0@)
}

/// The files to try for a sound, in order, with their sources.
pub fn candidates_for(list: &Vec<SoundLoad>, beatmap_dir: &Option<String>, skin_dir: &Option<String>) -> (r: Vec<(String, HitsoundSource)>)
    ensures
        candidate_views(r@) == sound_candidates(list@, *beatmap_dir, *skin_dir),
{
    let mut r: Vec<(String, HitsoundSource)> = Vec::new();
    for i in 0..list.len()
        invariant
            candidate_views(r@) == sound_candidates(list@.take(i as int), *beatmap_dir, *skin_dir),
    {
        let item = &list[i];
        assert(list@.take(i + 1).drop_last() =~= list@.take(i as int));
        assert(list@.take(i + 1).last() == *item);
        let ghost before = candidate_views(r@);
        let path = match item.source {
            HitsoundSource::Default => {
                let mut p = String::from_str("resources/audio/");
                p.append(item.path.as_str());
                Some(p)
            },
            HitsoundSource::Beatmap => match beatmap_dir {
                Some(d) => Some(join_path(d.as_str(), item.path.as_str())),
                None => None,
            },
            HitsoundSource::Skin => match skin_dir {
                Some(d) => Some(join_path(d.as_str(), item.path.as_str())),
                None => None,
            },
        };
        match path {
            Some(p) => {
                r.push((p, item.source));
                assert(candidate_views(r@) =~= before + seq![(p@, item.source)]);
            },
            None => {
                assert(candidate_views(r@) =~= before + Seq::<(Seq<char>, HitsoundSource)>::empty());
            },
        }
    }
    assert(list@.take(list@.len() as int) =~= list@);
    r
}

/// Whether `load` can fail on the file at `path`.
pub open spec fn load_fails<A, E, L: Fn(&String) -> Result<A, E>>(load: L, path: &String) -> bool {
    exists|e: E| call_ensures(load, (path,), Err(e))
}

impl<A> SoundManager<A> {
    /// Every loaded sound has its own id.
    pub open spec fn wf(&self) -> bool {
        sound_ids(self.sounds@).no_duplicates()
    }

    /// No sounds loaded.
    pub fn new() -> (m: SoundManager<A>)
        ensures
            m.wf(),
            m.sounds@ == Seq::<(String, SoundEntry<A>)>::empty(),
    {
        let m = SoundManager { sounds: Vec::new() };
        assert(sound_ids(m.sounds@) =~= Seq::<Seq<char>>::empty());
        m
    }

    /// The position of the sound with the given id.
    pub fn find(&self, id: &String) -> (i: Option<usize>)
        ensures
            match i {
                Some(i) => i < self.sounds@.len() && self.sounds@[i as int].0@ == id@,
                None => !sound_ids(self.sounds@).contains(id@),
            },
    {
        for i in 0..self.sounds.len()
            invariant
                forall|j: int| 0 <= j < i ==> #[trigger] self.sounds@[j].0@ != id@,
        {
            if self.sounds[i].0.eq(id) {
                return Some(i);
            }
        }
        proof {
            if sound_ids(self.sounds@).contains(id@) {
                let j = choose|j: int| 0 <= j < self.sounds@.len() && #[trigger] sound_ids(self.sounds@)[j] == id@;
                assert(self.sounds@[j].0@ != id@);
            }
        }
        None
    }

    /// Stores a loaded sound under an id, replacing a sound with the same id.
    pub fn insert_sound(&mut self, id: String, sound: A, source: HitsoundSource)
        requires
            old(self).wf(),
        ensures
            final(self).wf(),
            sound_ids(final(self).sounds@).to_set() == sound_ids(old(self).sounds@).to_set().insert(id@),
            exists|i: int| 0 <= i < final(self).sounds@.len() && final(self).sounds@[i] == (id, SoundEntry { sound, source }),
    {
        let ghost entry = (id, SoundEntry { sound, source });
        match self.find(&id) {
            Some(i) => {
                let ghost ids = sound_ids(self.sounds@);
                self.sounds.set(i, (id, SoundEntry { sound, source }));
                assert(sound_ids(self.sounds@) =~= ids.update(i as int, id@));
                assert(ids[i as int] == id@);
                assert(sound_ids(self.sounds@) =~= ids);
                assert(self.sounds@[i as int] == entry);
            },
            None => {
                let ghost ids = sound_ids(self.sounds@);
                self.sounds.push((id, SoundEntry { sound, source }));
                assert(sound_ids(self.sounds@) =~= ids.push(id@));
                proof {
                    let nids = ids.push(id@);
                    assert forall|a: int, b: int| 0 <= a < nids.len() && 0 <= b < nids.len() && a != b
                        implies nids[a] != nids[b] by {
                        if a == ids.len() {
                            assert(nids[b] == ids[b]);
                            assert(ids.contains(ids[b]));
                        } else if b == ids.len() {
                            assert(nids[a] == ids[a]);
                            assert(ids.contains(ids[a]));
                        }
                    }
                }
                assert(sound_ids(self.sounds@).to_set() =~= ids.to_set().insert(id@)) by {
                    ids.lemma_push_to_set_commute(id@);
                }
                assert(self.sounds@[ids.len() as int] == entry);
            },
        }
    }

    /// Forgets the sound with the given id.
    pub fn remove_sound(&mut self, id: &String)
        requires
            old(self).wf(),
        ensures
            final(self).wf(),
            !sound_ids(final(self).sounds@).contains(id@),
            sound_ids(final(self).sounds@).to_set() == sound_ids(old(self).sounds@).to_set().remove(id@),
    {
        match self.find(id) {
            Some(i) => {
                let ghost ids = sound_ids(self.sounds@);
                let _ = self.sounds.remove(i);
                assert(sound_ids(self.sounds@) =~= ids.remove(i as int));
                proof {
                    let r = ids.remove(i as int);
                    assert forall|a: int, b: int| 0 <= a < r.len() && 0 <= b < r.len() && a != b
                        implies r[a] != r[b] by {
                        let oa = if a < i { a } else { a + 1 };
                        let ob = if b < i { b } else { b + 1 };
                        assert(r[a] == ids[oa]);
                        assert(r[b] == ids[ob]);
                    }
                    assert forall|j: int| 0 <= j < ids.len() - 1 implies #[trigger] ids.remove(i as int)[j] != id@ by {
                        if j < i {
                            assert(ids[j] != ids[i as int]);
                        } else {
                            assert(ids[j + 1] != ids[i as int]);
                        }
                    }
                    assert(ids.remove(i as int).to_set() =~= ids.to_set().remove(id@)) by {
                        assert forall|x: Seq<char>| ids.to_set().remove(id@).contains(x) implies ids.remove(i as int).to_set().contains(x) by {
                            let k = choose|k: int| 0 <= k < ids.len() && ids[k] == x;
                            if k < i {
                                assert(ids.remove(i as int)[k] == x);
                            } else {
                                assert(k != i);
                                assert(ids.remove(i as int)[k - 1] == x);
                            }
                        }
                    }
                }
            },
            None => {
                assert(sound_ids(self.sounds@).to_set() =~= sound_ids(self.sounds@).to_set().remove(id@));
            },
        }
    }
}

impl<A> SoundManager<A> {
    /// Loads a sound from the first candidate file that `load` accepts, trying them in
    /// order, and stores it under `id` with that file's source; later files are not tried.
    /// Returns the position of the file that loaded, or `None` (nothing stored) when none
    /// did.
    pub fn load_first<E, L>(
        &mut self,
        id: String,
        candidates: &Vec<(String, HitsoundSource)>,
        load: L,
    ) -> (loaded: Option<usize>)
        where L: Fn(&String) -> Result<A, E>,
        requires
            old(self).wf(),
            forall|i: int| 0 <= i < candidates@.len() ==> call_requires(load, (&#[trigger] candidates@[i].0,)),
        ensures
            final(self).wf(),
            match loaded {
                Some(j) => {
                    &&& j < candidates@.len()
                    &&& forall|i: int| 0 <= i < j ==> #[trigger] load_fails(load, &candidates@[i].0)
                    &&& exists|sound: A| {
                        &&& call_ensures(load, (&candidates@[j as int].0,), Ok(sound))
                        &&& exists|k: int| 0 <= k < final(self).sounds@.len()
                            && final(self).sounds@[k] == (id, SoundEntry { sound, source: candidates@[j as int].1 })
                    }
                    &&& sound_ids(final(self).sounds@).to_set() == sound_ids(old(self).sounds@).to_set().insert(id@)
                },
                None => {
                    &&& forall|i: int| 0 <= i < candidates@.len() ==> #[trigger] load_fails(load, &candidates@[i].0)
                    &&& final(self).sounds == old(self).sounds
                },
            },
    {
        let n = candidates.len();
        let mut i: usize = 0;
        while i < n
            invariant
                n == candidates@.len(),
                i <= n,
                self.wf(),
                self.sounds == old(self).sounds,
                forall|j: int| 0 <= j < candidates@.len() ==> call_requires(load, (&#[trigger] candidates@[j].0,)),
                forall|j: int| 0 <= j < i ==> #[trigger] load_fails(load, &candidates@[j].0),
            decreases n - i,
        {
            let r = load(&candidates[i].0);
            match r {
                Ok(sound) => {
                    let ghost sv = sound;
                    let source = candidates[i].1;
                    self.insert_sound(id, sound, source);
                    return Some(i);
                },
                Err(e) => {
                    assert(call_ensures(load, (&candidates@[i as int].0,), Err(e)));
                },
            }
            i += 1;
        }
        None
    }

    /// Carries out an action on a sound: plays it (volume, repeat, then play) or stops it
    /// when it is loaded, and sends nothing for an unknown id; forgets it; or, for a load,
    /// returns the files to try in order (with their sources), and the caller stores the
    /// first that loads with [`SoundManager::insert_sound`]. Returns the files to try, empty
    /// for the other actions; the commands handed to the sound are appended to `sent`.
    pub fn handle_action<V: Copy>(
        &mut self,
        action: AudioAction<V>,
        beatmap_dir: &Option<String>,
        skin_dir: &Option<String>,
        sent: &mut Vec<AudioCommand<V>>,
    ) -> (candidates: Vec<(String, HitsoundSource)>)
        where A: AudioInstance<V>,
        requires
            old(self).wf(),
        ensures
            final(self).wf(),
            match action.action {
                AudioActionType::Load { list } => {
                    &&& candidate_views(candidates@) == sound_candidates(list@, *beatmap_dir, *skin_dir)
                    &&& final(self).sounds == old(self).sounds
                    &&& final(sent)@ == old(sent)@
                },
                AudioActionType::Unload => {
                    &&& candidates@.len() == 0
                    &&& !sound_ids(final(self).sounds@).contains(action.id@)
                    &&& sound_ids(final(self).sounds@).to_set() == sound_ids(old(self).sounds@).to_set().remove(action.id@)
                    &&& final(sent)@ == old(sent)@
                },
                AudioActionType::Play { volume, repeat, restart } => {
                    &&& candidates@.len() == 0
                    &&& final(self).sounds == old(self).sounds
                    &&& final(sent)@ == old(sent)@ + if sound_ids(old(self).sounds@).contains(action.id@) {
                        seq![AudioCommand::SetVolume(volume), AudioCommand::SetRepeat(repeat), AudioCommand::Play { restart }]
                    } else {
                        Seq::empty()
                    }
                },
                AudioActionType::Stop => {
                    &&& candidates@.len() == 0
                    &&& final(self).sounds == old(self).sounds
                    &&& final(sent)@ == old(sent)@ + if sound_ids(old(self).sounds@).contains(action.id@) {
                        seq![AudioCommand::Stop]
                    } else {
                        Seq::empty()
                    }
                },
            },
    {
        let ghost start = sent@;
        let id = action.id;
        match action.action {
            AudioActionType::Play { volume, repeat, restart } => {
                if let Some(i) = self.find(&id) {
                    proof {
                        assert(sound_ids(self.sounds@)[i as int] == id@);
                    }
                    let sound = &self.sounds[i].1.sound;
                    sound.command(AudioCommand::SetVolume(volume));
                    sent.push(AudioCommand::SetVolume(volume));
                    sound.command(AudioCommand::SetRepeat(repeat));
                    sent.push(AudioCommand::SetRepeat(repeat));
                    sound.command(AudioCommand::Play { restart });
                    sent.push(AudioCommand::Play { restart });
                    assert(sent@ =~= start + seq![AudioCommand::SetVolume(volume), AudioCommand::SetRepeat(repeat), AudioCommand::Play { restart }]);
                } else {
                    assert(sent@ =~= start + Seq::<AudioCommand<V>>::empty());
                }
                Vec::new()
            },
            AudioActionType::Stop => {
                if let Some(i) = self.find(&id) {
                    proof {
                        assert(sound_ids(self.sounds@)[i as int] == id@);
                    }
                    self.sounds[i].1.sound.command(AudioCommand::Stop);
                    sent.push(AudioCommand::Stop);
                    assert(sent@ =~= start + seq![AudioCommand::<V>::Stop]);
                } else {
                    assert(sent@ =~= start + Seq::<AudioCommand<V>>::empty());
                }
                Vec::new()
            },
            AudioActionType::Load { list } => candidates_for(&list, beatmap_dir, skin_dir),
            AudioActionType::Unload => {
                self.remove_sound(&id);
                Vec::new()
            },
        }
    }
}


/// Putting the current song aside and then going back to the last song put aside restores
/// both the song and the queue.
pub proof fn law_push_then_pop<A>(queue: Seq<SongData<A>>, song: SongData<A>)
    ensures
        queue.push(song).len() > 0,
        queue.push(song).last() == song,
        queue.push(song).drop_last() == queue,
{
    assert(queue.push(song).drop_last() =~= queue);
}

} // verus!
