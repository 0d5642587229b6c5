use tataku::multiplayer::{LobbyInfo, LobbyState, MultiplayerData};
use tataku::values::{EnumInfo, GamemodeInfo, GamemodeInfos, GlobalInfo, ScoreList};

fn infos() -> GamemodeInfos {
    GamemodeInfos {
        by_num: vec![
            GamemodeInfo { id: "osu".to_string(), display_name: "Osu".to_string() },
            GamemodeInfo { id: "mania".to_string(), display_name: "Mania".to_string() },
        ],
    }
}

#[test]
fn gamemode_lookup() {
    let i = infos();
    assert_eq!(i.get_info("mania").map(|g| g.display_name.as_str()), Some("Mania"));
    assert!(i.get_info("taiko").is_none());
}

#[test]
fn global_info_playmodes() {
    let mut g = GlobalInfo::new(infos(), 0u8, "me".to_string(), "mania".to_string());
    assert_eq!((g.playmode.as_str(), g.playmode_display.as_str()), ("mania", "Mania"));
    assert_eq!((g.playmode_actual.as_str(), g.playmode_actual_display.as_str()), ("mania", "Mania"));
    assert_eq!(g.username, "me");
    g.update_playmode("unknown".to_string());
    assert_eq!((g.playmode.as_str(), g.playmode_display.as_str()), ("unknown", "Mania"));
    g.update_playmode_actual("osu".to_string());
    assert_eq!(g.playmode_actual_display, "Osu");
    let g2 = GlobalInfo::new(infos(), 0u8, "me".to_string(), "nope".to_string());
    assert!(g2.playmode_display.is_empty());
}

#[test]
fn enum_info_lists_modes() {
    let e: EnumInfo<u8, u8, u8> = EnumInfo::new(&infos(), vec![1], vec![2], vec![3]);
    assert_eq!(e.playmodes, vec!["osu".to_string(), "mania".to_string()]);
    assert_eq!(e.playmodes_display, vec!["Osu".to_string(), "Mania".to_string()]);
    assert_eq!((e.sort_by, e.group_by, e.score_methods), (vec![1], vec![2], vec![3]));
}

#[test]
fn score_list_starts_empty() {
    let l: ScoreList<u8> = ScoreList::new();
    assert!(l.scores.is_empty() && !l.loaded);
}

#[test]
fn lobby_list_is_published() {
    let mut d = MultiplayerData::new();
    for id in [3, 1] {
        d.insert_lobby(LobbyInfo {
            id,
            name: format!("l{id}"),
            host: 1,
            players: vec![],
            has_password: false,
            current_beatmap: None,
            state: LobbyState::Idle,
        });
    }
    let mut g = GlobalInfo::new(infos(), 0u8, "me".to_string(), "osu".to_string());
    d.update_values(&mut g);
    let mut ids: Vec<u32> = g.lobbies.iter().map(|l| l.id).collect();
    ids.sort();
    assert_eq!(ids, vec![1, 3]);
}
