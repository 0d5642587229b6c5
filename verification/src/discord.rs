use vstd::prelude::*;
use vstd::string::*;

verus! {

/// The game's Discord application id.
pub const APP_ID: &'static str = "857981337423577109";

/// How long to wait between connection attempts, in milliseconds.
pub const RECONNECT_INTERVAL_MS: u64 = 5000;

/// The Discord rich presence integration: whether it is enabled and connected, and when
/// it last tried to connect.
#[derive(Debug)]
pub struct Discord {
    pub enabled: bool,
    pub connected: bool,
    pub last_connection_attempt_ms: Option<u64>,
}

/// What the caller does with the Discord client.
#[derive(Clone, Copy, Debug, PartialEq, Eq, Structural)]
pub enum DiscordStep {
    Nothing,
    /// connect, then report success with [`Discord::connect_succeeded`]
    Connect,
    /// close the connection, then report success with [`Discord::close_succeeded`]
    Close,
}

/// What the game tells its integrations.
#[derive(Debug)]
pub enum TatakuEvent {
    /// a beatmap started at `start_time` (seconds since the unix epoch)
    BeatmapStarted {
        start_time: i64,
        artist: String,
        title: String,
        creator: String,
        version: String,
        multiplayer: bool,
        spectator: Option<String>,
    },
    /// a song started playing, `elapsed_s` seconds in, `duration_s` seconds long
    SongChanged { artist: String, title: String, elapsed_s: i64, duration_s: i64 },
    BeatmapEnded,
    Other,
}

/// A rich presence to show: its texts and timestamps (seconds since the unix epoch),
/// with the game's icon.
#[derive(Debug)]
pub struct Presence {
    pub state: String,
    pub details: Option<String>,
    pub start: Option<i64>,
    pub end: Option<i64>,
}

/// Whether a connection attempt may be made at `now_ms`: enabled, not connected, and at
/// least the reconnect interval since the last attempt.
pub open spec fn may_reconnect(d: Discord, now_ms: u64) -> bool {
    &&& d.enabled
    &&& !d.connected
    &&& match d.last_connection_attempt_ms {
        Some(t) => !(now_ms >= t && now_ms - t < RECONNECT_INTERVAL_MS),
        None => true,
    }
}

/// The presence texts for a started beatmap.
pub open spec fn started_state(
    artist: Seq<char>,
    title: Seq<char>,
    multiplayer: bool,
    spectator: Option<Seq<char>>,
) -> Seq<char> {
    match spectator {
        Some(player) => "Watching "@ + player + ": "@ + artist + " - "@ + title,
        None => if multiplayer {
            "Multiplaying: "@ + artist + " - "@ + title
        } else {
            artist + " - "@ + title
        },
    }
}

/// Whether the start and end of a song, counted back from `now_s`, fit in an `i64`.
pub open spec fn song_times_fit(event: TatakuEvent, now_s: i64) -> bool {
    event matches TatakuEvent::SongChanged { elapsed_s, duration_s, .. } ==> {
        &&& i64::MIN <= now_s - elapsed_s <= i64::MAX
        &&& i64::MIN <= now_s - elapsed_s + duration_s <= i64::MAX
    }
}

/// Whether `p` is the presence shown after `event` at `now_s` (seconds since the unix
/// epoch): nothing unless enabled and connected; for a started beatmap its texts from its
/// start; for a song its text from when it started to when it ends; "Idle" when a beatmap
/// ended; nothing for other events.
pub open spec fn presence_for(d: Discord, event: TatakuEvent, now_s: i64, p: Option<Presence>) -> bool {
    if !(d.enabled && d.connected) {
        p is None
    } else {
        match event {
            TatakuEvent::BeatmapStarted { start_time, artist, title, creator, version, multiplayer, spectator } => {
                &&& p is Some
                &&& p->0.state@ == started_state(
                    artist@,
                    title@,
                    multiplayer,
                    match spectator {
                        Some(s) => Some(s@),
                        None => None,
                    },
                )
                &&& p->0.details is Some
                &&& p->0.details->0@ == version@ + " by "@ + creator@
                &&& p->0.start == Some(start_time)
                &&& p->0.end is None
            },
            TatakuEvent::SongChanged { artist, title, elapsed_s, duration_s } => {
                &&& p is Some
                &&& p->0.state@ == artist@ + " - "@ + title@
                &&& p->0.details is None
                &&& p->0.start == Some((now_s - elapsed_s) as i64)
                &&& p->0.end == Some((now_s - elapsed_s + duration_s) as i64)
            },
            TatakuEvent::BeatmapEnded => {
                &&& p is Some
                &&& p->0.state@ == "Idle"@
                &&& p->0.details is None
                &&& p->0.start is None
                &&& p->0.end is None
            },
            TatakuEvent::Other => p is None,
        }
    }
}

/// Whether the start and end of a song, counted back from `now_s`, fit in an `i64`: the
/// condition [`Discord::handle_event`] asks of its arguments.
pub fn song_times_fit_at(event: &TatakuEvent, now_s: i64) -> (b: bool)
    ensures
        b == song_times_fit(*event, now_s),
{
    match event {
        TatakuEvent::SongChanged { elapsed_s, duration_s, .. } => match now_s.checked_sub(*elapsed_s) {
            Some(start) => start.checked_add(*duration_s).is_some(),
            None => false,
        },
        _ => true,
    }
}

impl Discord {
    /// Disabled and not connected.
    pub fn new() -> (d: Discord)
        ensures
            !d.enabled,
            !d.connected,
            d.last_connection_attempt_ms is None,
    {
        Discord { enabled: false, connected: false, last_connection_attempt_ms: None }
    }

    /// The integration's name.
    pub fn name(&self) -> (s: String)
        ensures
            s@ == "Discord"@,
    {
        String::from_str("Discord")
    }

    /// Whether to try connecting now; an attempt is recorded.
    pub fn reconnect(&mut self, now_ms: u64) -> (attempt: bool)
        ensures
            attempt == may_reconnect(*old(self), now_ms),
            attempt ==> final(self).last_connection_attempt_ms == Some(now_ms),
            !attempt ==> final(self).last_connection_attempt_ms == old(self).last_connection_attempt_ms,
            final(self).enabled == old(self).enabled,
            final(self).connected == old(self).connected,
    {
        if !self.enabled || self.connected {
            return false;
        }
        if let Some(last) = self.last_connection_attempt_ms {
            if now_ms >= last && now_ms - last < RECONNECT_INTERVAL_MS {
                return false;
            }
        }
        self.last_connection_attempt_ms = Some(now_ms);
        true
    }

    /// The connection attempt succeeded.
    pub fn connect_succeeded(&mut self)
        ensures
            final(self).connected,
            final(self).enabled == old(self).enabled,
            final(self).last_connection_attempt_ms == old(self).last_connection_attempt_ms,
    {
        self.connected = true;
    }

    /// The connection was closed.
    pub fn close_succeeded(&mut self)
        ensures
            !final(self).connected,
            final(self).enabled == old(self).enabled,
            final(self).last_connection_attempt_ms == old(self).last_connection_attempt_ms,
    {
        self.connected = false;
    }

    /// Follows the setting: when it turns on, connect (if an attempt may be made now);
    /// when it turns off, close the connection.
    pub fn check_enabled(&mut self, setting: bool, now_ms: u64) -> (step: DiscordStep)
        ensures
            old(self).enabled == setting ==> step == DiscordStep::Nothing && *final(self) == *old(self),
            old(self).enabled != setting ==> {
                &&& final(self).enabled == setting
                &&& final(self).connected == old(self).connected
                &&& if setting == old(self).connected {
                    step == DiscordStep::Nothing
                } else if setting {
                    step == if may_reconnect(Discord { enabled: setting, ..*old(self) }, now_ms) {
                        DiscordStep::Connect
                    } else {
                        DiscordStep::Nothing
                    }
                } else {
                    step == DiscordStep::Close
                }
            },
    {
        if self.enabled == setting {
            return DiscordStep::Nothing;
        }
        self.enabled = setting;
        if self.enabled == self.connected {
            return DiscordStep::Nothing;
        }
        if self.enabled {
            if self.reconnect(now_ms) {
                DiscordStep::Connect
            } else {
                DiscordStep::Nothing
            }
        } else {
            DiscordStep::Close
        }
    }

    /// The presence to show after an event, at `now_s` (seconds since the unix epoch);
    /// `None` when nothing is shown (disabled, not connected, or an event that changes
    /// nothing).
    pub fn handle_event(&self, event: &TatakuEvent, now_s: i64) -> (p: Option<Presence>)
        requires
            song_times_fit(*event, now_s),
        ensures
            presence_for(*self, *event, now_s, p),
    {
        if !self.enabled || !self.connected {
            return None;
        }
        match event {
            TatakuEvent::BeatmapStarted { start_time, artist, title, creator, version, multiplayer, spectator } => {
                let mut state = match spectator {
                    Some(player) => {
                        let mut s = String::from_str("Watching ");
                        s.append(player.as_str());
                        s.append(": ");
                        s
                    },
                    None => if *multiplayer {
                        String::from_str("Multiplaying: ")
                    } else {
                        String::new()
                    },
                };
                state.append(artist.as_str());
                state.append(" - ");
                state.append(title.as_str());
                let mut details = version.clone();
                details.append(" by ");
                details.append(creator.as_str());
                proof {
                    match spectator {
                        Some(s) => {},
                        None => {
                            if !*multiplayer {
                                assert(state@ =~= artist@ + " - "@ + title@);
                            }
                        },
                    }
                }
                Some(Presence { state, details: Some(details), start: Some(*start_time), end: None })
            },
            TatakuEvent::SongChanged { artist, title, elapsed_s, duration_s } => {
                let start = now_s - *elapsed_s;
                let end = start + *duration_s;
                let mut state = artist.clone();
                state.append(" - ");
                state.append(title.as_str());
                Some(Presence { state, details: None, start: Some(start), end: Some(end) })
            },
            TatakuEvent::BeatmapEnded => Some(
                Presence { state: String::from_str("Idle"), details: None, start: None, end: None },
            ),
            TatakuEvent::Other => None,
        }
    }

}


/// After a connection attempt at `t`, no attempt may be made again until the reconnect
/// interval has passed.
pub proof fn law_no_reconnect_within_interval(d: Discord, t: u64, later: u64)
    requires
        t <= later < t + RECONNECT_INTERVAL_MS,
    ensures
        !may_reconnect(Discord { last_connection_attempt_ms: Some(t), ..d }, later),
{
}

} // verus!
