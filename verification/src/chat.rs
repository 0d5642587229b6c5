use vstd::prelude::*;
use vstd::string::*;
use crate::text::{push_two_digits, two_digits};

verus! {

/// A chat destination: a public channel or a direct conversation with a user.
#[derive(Clone, Debug, PartialEq, Eq, Hash)]
pub enum ChatChannel {
    Channel { name: String },
    User { username: String },
}

/// The mathematical value of a [`ChatChannel`].
pub enum ChannelView {
    Channel(Seq<char>),
    User(Seq<char>),
}

impl View for ChatChannel {
    type V = ChannelView;

    open spec fn view(&self) -> ChannelView {
        match self {
            ChatChannel::Channel { name } => ChannelView::Channel(name@),
            ChatChannel::User { username } => ChannelView::User(username@),
        }
    }
}

/// Whether a sequence of characters begins with `#`.
pub open spec fn starts_with_hash(s: Seq<char>) -> bool {
    s.len() > 0 && s[0] == '#'
}

/// The channel a name denotes: names beginning with `#` are channels (the `#` is kept),
/// all others are users.
pub open spec fn spec_from_name(name: Seq<char>) -> ChannelView {
    if starts_with_hash(name) { ChannelView::Channel(name) } else { ChannelView::User(name) }
}

/// The display name of a channel: `#` followed by the channel name, or the username.
pub open spec fn spec_channel_name(c: ChannelView) -> Seq<char> {
    match c {
        ChannelView::Channel(name) => seq!['#'] + name,
        ChannelView::User(username) => username,
    }
}

/// Whether a string begins with `#`.
pub fn str_starts_with_hash(s: &str) -> (b: bool)
    ensures
        b == starts_with_hash(s@),
{
    let len = s.unicode_len();
    if len == 0 {
        false
    } else {
        s.get_char(0) == '#'
    }
}

/// A string made of one `#`.
fn hash_str() -> (s: &'static str)
    ensures
        s@ == seq!['#'],
{
    proof { reveal_strlit("#"); }
    "#"
}

impl ChatChannel {
    /// Parses a channel name: a leading `#` marks a channel, anything else a user.
    pub fn from_name(name: String) -> (c: ChatChannel)
        ensures
            c@ == spec_from_name(name@),
    {
        if str_starts_with_hash(name.as_str()) {
            ChatChannel::Channel { name }
        } else {
            ChatChannel::User { username: name }
        }
    }

    /// The name shown for this channel.
    pub fn get_name(&self) -> (s: String)
        ensures
            s@ == spec_channel_name(self@),
    {
        match self {
            ChatChannel::Channel { name } => {
                let mut s = String::from_str(hash_str());
                s.append(name.as_str());
                s
            },
            ChatChannel::User { username } => username.clone(),
        }
    }

    /// A copy of this channel.
    pub fn duplicate(&self) -> (c: ChatChannel)
        ensures
            c@ == self@,
    {
        match self {
            ChatChannel::Channel { name } => ChatChannel::Channel { name: name.clone() },
            ChatChannel::User { username } => ChatChannel::User { username: username.clone() },
        }
    }

    /// Whether two channels are the same channel.
    pub fn same_as(&self, other: &ChatChannel) -> (b: bool)
        ensures
            b == (self@ == other@),
    {
        match self {
            ChatChannel::Channel { name: a } => match other {
                ChatChannel::Channel { name: b } => a.eq(b),
                ChatChannel::User { .. } => false,
            },
            ChatChannel::User { username: a } => match other {
                ChatChannel::User { username: b } => a.eq(b),
                ChatChannel::Channel { .. } => false,
            },
        }
    }
}

/// A chat message as received from the server.
#[derive(Clone, Debug, PartialEq, Eq)]
pub struct ChatMessage {
    pub sender: String,
    /// channel or username
    pub channel: ChatChannel,
    pub sender_id: u32,
    /// milliseconds since the unix epoch
    pub timestamp: u64,
    pub text: String,
}

/// Milliseconds in an hour and in a minute.
pub const MS_PER_HOUR: u64 = 3_600_000;
pub const MS_PER_MINUTE: u64 = 60_000;

/// `HH:MM` (UTC, 24 hour clock) of a millisecond timestamp.
pub open spec fn spec_format_time(timestamp: nat) -> Seq<char> {
    two_digits((timestamp / 3_600_000) % 24) + seq![':'] + two_digits((timestamp / 60_000) % 60)
}

/// `"{time} {sender}: {text}"`.
pub open spec fn spec_formatted_text(timestamp: nat, sender: Seq<char>, text: Seq<char>) -> Seq<char> {
    spec_format_time(timestamp) + seq![' '] + sender + seq![':', ' '] + text
}

fn colon_str() -> (s: &'static str)
    ensures
        s@ == seq![':'],
{
    proof { reveal_strlit(":"); }
    ":"
}

fn space_str() -> (s: &'static str)
    ensures
        s@ == seq![' '],
{
    proof { reveal_strlit(" "); }
    " "
}

fn colon_space_str() -> (s: &'static str)
    ensures
        s@ == seq![':', ' '],
{
    proof { reveal_strlit(": "); }
    ": "
}

/// The mathematical value of a [`ChatMessage`].
#[verifier::ext_equal]
pub struct MessageView {
    pub sender: Seq<char>,
    pub channel: ChannelView,
    pub sender_id: u32,
    pub timestamp: u64,
    pub text: Seq<char>,
}

impl View for ChatMessage {
    type V = MessageView;

    open spec fn view(&self) -> MessageView {
        MessageView {
            sender: self.sender@,
            channel: self.channel@,
            sender_id: self.sender_id,
            timestamp: self.timestamp,
            text: self.text@,
        }
    }
}

impl ChatMessage {
    /// A message stamped with the given time (milliseconds since the unix epoch).
    pub fn new_at(sender: String, channel: ChatChannel, sender_id: u32, text: String, timestamp: u64) -> (m: ChatMessage)
        ensures
            m@ == (MessageView {
                sender: sender@,
                channel: channel@,
                sender_id,
                timestamp,
                text: text@,
            }),
    {
        ChatMessage { sender, channel, sender_id, text, timestamp }
    }

    /// The current time in whole milliseconds since the unix epoch (cut to 64 bits), or 0
    /// if the clock reads before the epoch. Nothing is stated of the clock's reading.
    pub fn now() -> u64 {
        let t = system_now();
        match since_epoch(&t) {
            Ok(d) => duration_millis(&d) as u64,
            Err(_) => 0,
        }
    }

    /// A message stamped with the current time.
    pub fn new(sender: String, channel: ChatChannel, sender_id: u32, text: String) -> (m: ChatMessage)
        ensures
            m.sender == sender,
            m.channel == channel,
            m.sender_id == sender_id,
            m.text == text,
    {
        ChatMessage { sender, channel, sender_id, text, timestamp: ChatMessage::now() }
    }

    /// `HH:MM` of the message's timestamp.
    pub fn format_time(&self) -> (s: String)
        ensures
            s@ == spec_format_time(self.timestamp as nat),
    {
        let hours = (self.timestamp / MS_PER_HOUR) % 24;
        let minutes = (self.timestamp / MS_PER_MINUTE) % 60;
        let mut s = String::new();
        push_two_digits(&mut s, hours);
        s.append(colon_str());
        push_two_digits(&mut s, minutes);
        s
    }

    /// `"{time} {sender}: {text}"`.
    pub fn get_formatted_text(&self) -> (s: String)
        ensures
            s@ == spec_formatted_text(self.timestamp as nat, self.sender@, self.text@),
    {
        let mut s = self.format_time();
        s.append(space_str());
        s.append(self.sender.as_str());
        s.append(colon_space_str());
        s.append(self.text.as_str());
        s
    }
}


#[verifier::external_type_specification]
#[verifier::external_body]
pub struct ExSystemTime(std::time::SystemTime);

#[verifier::external_type_specification]
#[verifier::external_body]
pub struct ExSystemTimeError(std::time::SystemTimeError);

/// `std::time::SystemTime::now`: the system clock's reading. It depends on the clock, so
/// nothing is stated of it.
#[verifier::external_body]
fn system_now() -> std::time::SystemTime {
    std::time::SystemTime::now()
}

/// `std::time::SystemTime::duration_since` with the unix epoch: the time elapsed since the
/// epoch, or an error when `t` lies before it. A duration is opaque here, so nothing is
/// stated of which of the two comes back.
#[verifier::external_body]
fn since_epoch(t: &std::time::SystemTime) -> Result<core::time::Duration, std::time::SystemTimeError> {
    t.duration_since(std::time::SystemTime::UNIX_EPOCH)
}

/// `core::time::Duration::as_millis`: the duration in whole milliseconds. A duration is
/// opaque here, so the value is left unsaid.
#[verifier::external_body]
fn duration_millis(d: &core::time::Duration) -> u128 {
    d.as_millis()
}

} // verus!
