use std::cell::RefCell;
use std::rc::Rc;
use tataku::song::{
    AudioAction, AudioActionType, AudioCommand, AudioInstance, AudioState, HitsoundSource, SongInfo, SongManager,
    SongMenuSetAction, SongPlayData, SongSource, SongTarget, SoundLoad, SoundManager,
};

#[derive(Debug, Clone)]
struct FakeSong {
    name: String,
    log: Rc<RefCell<Vec<String>>>,
}

impl AudioInstance<u32> for FakeSong {
    type Data = u32;
    fn command(&self, c: AudioCommand<u32>) {
        let text = match c {
            AudioCommand::Play { restart } => format!("play {}", restart),
            AudioCommand::Pause => "pause".to_string(),
            AudioCommand::Stop => "stop".to_string(),
            AudioCommand::SetPosition(p) => format!("pos {}", p),
            AudioCommand::SetRate(r) => format!("rate {}", r),
            AudioCommand::SetVolume(v) => format!("vol {}", v),
            AudioCommand::SetRepeat(r) => format!("repeat {}", r),
        };
        self.log.borrow_mut().push(format!("{} {}", self.name, text));
    }
    fn get_position(&self) -> u32 { 7 }
    fn get_state(&self) -> AudioState { AudioState::Playing }
    fn get_data(&self) -> u32 { 99 }
}

type Hook = Box<dyn Fn(&u32, &u32) -> bool>;
type Sent = Vec<(SongTarget, AudioCommand<u32>)>;

/// A visualizer that writes down its number, the data and the amplitude multiplier it was
/// handed, and answers whether it is still there.
fn hook(id: u32, alive: bool, seen: &Rc<RefCell<Vec<(u32, u32, u32)>>>) -> Hook {
    let seen = seen.clone();
    Box::new(move |data: &u32, amp: &u32| {
        seen.borrow_mut().push((id, *data, *amp));
        alive
    })
}

fn no_load(_: SongSource) -> Result<FakeSong, String> {
    Err("unused".to_string())
}

fn song(name: &str, log: &Rc<RefCell<Vec<String>>>) -> FakeSong {
    FakeSong { name: name.to_string(), log: log.clone() }
}

fn play() -> SongPlayData<u32> {
    SongPlayData { play: true, restart: false, position: Some(5), rate: None, volume: None }
}

#[test]
fn songs_queue_and_pop_back() {
    let log = Rc::new(RefCell::new(Vec::new()));
    let mut sent: Sent = Vec::new();
    let mut m: SongManager<FakeSong, Hook, u32> = SongManager::new();
    assert!(m.position().is_none());
    assert_eq!(m.state(), AudioState::Stopped);
    let l = log.clone();
    let r: Result<(), String> = m.handle_song_set_action(
        SongMenuSetAction::FromFile("a.mp3".to_string(), play()),
        move |src| match src {
            SongSource::File(p) => Ok(song(&p, &l)),
            SongSource::Data(_) => Err("data".to_string()),
        },
        &mut sent,
    );
    assert!(r.is_ok());
    assert_eq!(m.current_song.as_ref().unwrap().id, "a.mp3");
    assert_eq!(m.position(), Some(7));
    assert_eq!(log.borrow().clone(), vec!["a.mp3 play false", "a.mp3 pos 5"]);
    assert_eq!(sent, vec![(SongTarget::Current, AudioCommand::Play { restart: false }), (SongTarget::Current, AudioCommand::SetPosition(5))]);
    sent.clear();
    log.borrow_mut().clear();
    assert!(m.handle_song_set_action(SongMenuSetAction::PushQueue, no_load, &mut sent).is_ok());
    assert!(m.current_song.is_none());
    assert_eq!(m.song_queue.len(), 1);
    assert_eq!(sent, vec![(SongTarget::Replaced, AudioCommand::Pause)]);
    sent.clear();
    assert!(m.handle_song_set_action(SongMenuSetAction::PopQueue, no_load, &mut sent).is_ok());
    assert_eq!(m.current_song.as_ref().unwrap().id, "a.mp3");
    assert!(m.song_queue.is_empty());
    assert_eq!(sent, vec![(SongTarget::Current, AudioCommand::Play { restart: false })]);
    assert_eq!(log.borrow().clone(), vec!["a.mp3 pause", "a.mp3 play false"]);
    sent.clear();
    assert!(m.handle_song_set_action(SongMenuSetAction::Remove, no_load, &mut sent).is_ok());
    assert!(m.current_song.is_none());
    assert_eq!(sent, vec![(SongTarget::Replaced, AudioCommand::Stop)]);
    sent.clear();
    assert!(m.handle_song_set_action(SongMenuSetAction::Remove, no_load, &mut sent).is_ok());
    assert!(m.handle_song_set_action(SongMenuSetAction::PopQueue, no_load, &mut sent).is_ok());
    assert!(sent.is_empty());
}

#[test]
fn pop_stops_the_current_song_first() {
    let log = Rc::new(RefCell::new(Vec::new()));
    let mut sent: Sent = Vec::new();
    let mut m: SongManager<FakeSong, Hook, u32> = SongManager::new();
    let l = log.clone();
    let _ = m.play_song("a".to_string(), play(), move || -> Result<FakeSong, String> { Ok(song("a", &l)) }, &mut sent);
    let _ = m.handle_song_set_action(SongMenuSetAction::PushQueue, no_load, &mut sent);
    let l = log.clone();
    let _ = m.play_song("b".to_string(), play(), move || -> Result<FakeSong, String> { Ok(song("b", &l)) }, &mut sent);
    sent.clear();
    log.borrow_mut().clear();
    let _ = m.handle_song_set_action(SongMenuSetAction::PopQueue, no_load, &mut sent);
    assert_eq!(sent, vec![(SongTarget::Replaced, AudioCommand::Stop), (SongTarget::Current, AudioCommand::Play { restart: false })]);
    assert_eq!(log.borrow().clone(), vec!["b stop", "a play false"]);
    assert_eq!(m.current_song.as_ref().unwrap().id, "a");
}

#[test]
fn same_song_is_not_reloaded() {
    let log = Rc::new(RefCell::new(Vec::new()));
    let mut sent: Sent = Vec::new();
    let mut m: SongManager<FakeSong, Hook, u32> = SongManager::new();
    let l = log.clone();
    let _ = m.play_song("k".to_string(), play(), move || -> Result<FakeSong, String> { Ok(song("first", &l)) }, &mut sent);
    sent.clear();
    let r = m.play_song("k".to_string(), play(), || -> Result<FakeSong, String> { Err("should not load".to_string()) }, &mut sent);
    assert!(r.is_ok());
    assert!(sent.is_empty());
    assert_eq!(m.current_song.as_ref().unwrap().instance.name, "first");
    let again = SongPlayData { play: false, restart: true, position: None, rate: Some(2), volume: Some(4) };
    let r = m.play_song("k".to_string(), again, || -> Result<FakeSong, String> { Err("should not load".to_string()) }, &mut sent);
    assert!(r.is_ok());
    assert_eq!(
        sent,
        vec![
            (SongTarget::Current, AudioCommand::Play { restart: true }),
            (SongTarget::Current, AudioCommand::SetRate(2)),
            (SongTarget::Current, AudioCommand::SetVolume(4)),
        ]
    );
    sent.clear();
    log.borrow_mut().clear();
    let r = m.play_song("other".to_string(), play(), || -> Result<FakeSong, String> { Err("no file".to_string()) }, &mut sent);
    assert_eq!(r, Err("no file".to_string()));
    assert!(sent.is_empty());
    assert!(log.borrow().is_empty());
    assert_eq!(m.current_song.as_ref().unwrap().id, "k");
    let l = log.clone();
    let quiet = SongPlayData { play: false, restart: false, position: None, rate: None, volume: None };
    let r = m.play_song("new".to_string(), quiet, move || -> Result<FakeSong, String> { Ok(song("new", &l)) }, &mut sent);
    assert!(r.is_ok());
    assert_eq!(sent, vec![(SongTarget::Replaced, AudioCommand::Stop)]);
    assert_eq!(log.borrow().clone(), vec!["first stop"]);
}

#[test]
fn visualizers_that_are_gone_are_dropped() {
    let log = Rc::new(RefCell::new(Vec::new()));
    let seen = Rc::new(RefCell::new(Vec::new()));
    let mut sent: Sent = Vec::new();
    let mut m: SongManager<FakeSong, Hook, u32> = SongManager::new();
    m.hook_fft(hook(1, true, &seen));
    m.hook_fft(hook(2, false, &seen));
    m.update(3);
    assert_eq!(m.fft_hooks.len(), 2);
    assert!(seen.borrow().is_empty());
    let l = log.clone();
    let _ = m.play_song("k".to_string(), play(), move || -> Result<FakeSong, String> { Ok(song("s", &l)) }, &mut sent);
    m.update(3);
    assert_eq!(m.fft_hooks.len(), 1);
    assert_eq!(seen.borrow().clone(), vec![(1, 99, 3), (2, 99, 3)]);
    m.update(8);
    assert_eq!(seen.borrow().clone(), vec![(1, 99, 3), (2, 99, 3), (1, 99, 8)]);
}

#[test]
fn song_info_follows_state() {
    let log = Rc::new(RefCell::new(Vec::new()));
    let mut info: SongInfo<u32> = SongInfo { position: None, paused: false, playing: false, stopped: false, exists: false, state: AudioState::Unknown };
    assert!(info.set_state(AudioState::Paused));
    assert!(info.paused && info.exists && !info.playing);
    assert!(!info.set_state(AudioState::Paused));
    let s = song("x", &log);
    info.update(Some(&s));
    assert_eq!(info.position, Some(7));
    assert!(info.playing && info.exists);
    info.update::<FakeSong>(None);
    assert!(info.position.is_none() && !info.exists && info.state == AudioState::Unknown);
}

#[test]
fn sounds_load_play_and_unload() {
    let log = Rc::new(RefCell::new(Vec::new()));
    let mut m: SoundManager<FakeSong> = SoundManager::new();
    let mut cmds: Vec<AudioCommand<u32>> = Vec::new();
    let candidates = m.handle_action(
        AudioAction {
            id: "hit".to_string(),
            action: AudioActionType::Load {
                list: vec![
                    SoundLoad { path: "a.wav".to_string(), source: HitsoundSource::Beatmap },
                    SoundLoad { path: "b.wav".to_string(), source: HitsoundSource::Default },
                    SoundLoad { path: "c.wav".to_string(), source: HitsoundSource::Skin },
                ],
            },
        },
        &None,
        &Some("skins/mine".to_string()),
        &mut cmds,
    );
    assert!(cmds.is_empty());
    let paths: Vec<String> = candidates.iter().map(|c| c.0.clone()).collect();
    assert_eq!(paths, vec!["resources/audio/b.wav".to_string(), format!("skins/mine{}c.wav", std::path::MAIN_SEPARATOR)]);
    m.insert_sound("hit".to_string(), song("hit", &log), HitsoundSource::Default);
    m.insert_sound("hit".to_string(), song("hit2", &log), HitsoundSource::Skin);
    assert_eq!(m.sounds.len(), 1);
    m.handle_action(AudioAction { id: "hit".to_string(), action: AudioActionType::Play { volume: 3, repeat: false, restart: true } }, &None, &None, &mut cmds);
    assert_eq!(cmds, vec![AudioCommand::SetVolume(3), AudioCommand::SetRepeat(false), AudioCommand::Play { restart: true }]);
    cmds.clear();
    m.handle_action(AudioAction { id: "none".to_string(), action: AudioActionType::Stop }, &None, &None, &mut cmds);
    m.handle_action(AudioAction { id: "none".to_string(), action: AudioActionType::Play { volume: 1, repeat: true, restart: false } }, &None, &None, &mut cmds);
    assert!(cmds.is_empty());
    assert_eq!(log.borrow().clone(), vec!["hit2 vol 3", "hit2 repeat false", "hit2 play true"]);
    m.handle_action(AudioAction { id: "hit".to_string(), action: AudioActionType::Stop }, &None, &None, &mut cmds);
    assert_eq!(cmds, vec![AudioCommand::Stop]);
    assert_eq!(log.borrow().last().unwrap(), "hit2 stop");
    cmds.clear();
    m.handle_action(AudioAction { id: "hit".to_string(), action: AudioActionType::Unload }, &None, &None, &mut cmds);
    assert!(m.sounds.is_empty());
    assert!(cmds.is_empty());
}

#[test]
fn visualizers_kept_in_order() {
    let log = Rc::new(RefCell::new(Vec::new()));
    let seen = Rc::new(RefCell::new(Vec::new()));
    let mut sent: Sent = Vec::new();
    let mut m: SongManager<FakeSong, Hook, u32> = SongManager::new();
    for i in 0..4u32 {
        m.hook_fft(hook(i, i % 2 == 0, &seen));
    }
    let l = log.clone();
    let _ = m.play_song("k".to_string(), play(), move || -> Result<FakeSong, String> { Ok(song("s", &l)) }, &mut sent);
    m.update(1);
    assert_eq!(m.fft_hooks.len(), 2);
    seen.borrow_mut().clear();
    assert!((m.fft_hooks[0])(&5, &1));
    assert!((m.fft_hooks[1])(&6, &1));
    assert_eq!(seen.borrow().clone(), vec![(0, 5, 1), (2, 6, 1)]);
}

#[test]
fn sound_loads_from_first_file_that_loads() {
    let log = Rc::new(RefCell::new(Vec::new()));
    let tried = RefCell::new(Vec::new());
    let mut m: SoundManager<FakeSong> = SoundManager::new();
    let cands = vec![
        ("a.wav".to_string(), HitsoundSource::Beatmap),
        ("b.wav".to_string(), HitsoundSource::Skin),
        ("c.wav".to_string(), HitsoundSource::Default),
    ];
    let r = m.load_first("hit".to_string(), &cands, |p: &String| -> Result<FakeSong, ()> {
        tried.borrow_mut().push(p.clone());
        if p == "a.wav" { Err(()) } else { Ok(song(p, &log)) }
    });
    assert_eq!(r, Some(1));
    assert_eq!(tried.borrow().clone(), vec!["a.wav".to_string(), "b.wav".to_string()]);
    assert_eq!(m.sounds.len(), 1);
    assert_eq!(m.sounds[0].0, "hit");
    assert_eq!(m.sounds[0].1.source, HitsoundSource::Skin);
    assert_eq!(m.sounds[0].1.sound.name, "b.wav");
    let r = m.load_first("miss".to_string(), &cands[..1].to_vec(), |_p: &String| -> Result<FakeSong, ()> { Err(()) });
    assert_eq!(r, None);
    assert_eq!(m.sounds.len(), 1);
}

#[test]
fn keep_alive_keeps_flagged_items_in_order() {
    let kept = tataku::song::keep_alive(vec![10u32, 11, 12, 13, 14], &vec![false, true, true, false, true]);
    assert_eq!(kept, vec![11, 12, 14]);
    let none: Vec<u32> = tataku::song::keep_alive(vec![1u32, 2], &vec![false, false]);
    assert!(none.is_empty());
    let all = tataku::song::keep_alive(vec![1u32, 2], &vec![true, true]);
    assert_eq!(all, vec![1, 2]);
}
