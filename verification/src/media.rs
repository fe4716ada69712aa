use vstd::prelude::*;
use vstd::utf8::{decode_utf8, encode_utf8, encode_utf8_decode_utf8, is_char_boundary};

use crate::text::{decimal_pad2, push_char, push_decimal_pad2};

verus! {

/// Whether the active player is playing.
#[derive(Debug, Clone, Copy, PartialEq, Eq, Structural)]
pub enum MediaStatus {
    Playing,
    Paused,
    Stopped,
}

/// What the bar shows of the active media player. `position` and `length`
/// are in microseconds, as MPRIS reports them.
#[derive(Debug, Clone)]
pub struct MediaState {
    pub title: String,
    pub artist: String,
    pub status: MediaStatus,
    pub player_name: String,
    pub position: Option<u64>,
    pub length: Option<u64>,
}

/// The metadata of the current track, as the player reports it.
#[derive(Debug, Clone)]
pub struct TrackInfo {
    pub title: Option<String>,
    pub artists: Option<Vec<String>>,
    pub length: Option<u64>,
}

/// What the active player reports: its playback status (`None` where the
/// query failed), the current track (`None` where the query failed), the
/// position in microseconds (`None` where the query failed), and its name.
#[derive(Debug, Clone)]
pub struct PlayerReport {
    pub status: Option<MediaStatus>,
    pub track: Option<TrackInfo>,
    pub position: Option<u64>,
    pub identity: String,
}

/// The state shown when no player is found: empty texts, stopped, no times.
pub open spec fn is_default_media(m: MediaState) -> bool {
    &&& m.title@ == Seq::<char>::empty()
    &&& m.artist@ == Seq::<char>::empty()
    &&& m.status == MediaStatus::Stopped
    &&& m.player_name@ == Seq::<char>::empty()
    &&& m.position is None
    &&& m.length is None
}

impl Default for MediaState {
    fn default() -> (r: MediaState)
        ensures
            is_default_media(r),
    {
        MediaState {
            title: String::new(),
            artist: String::new(),
            status: MediaStatus::Stopped,
            player_name: String::new(),
            position: None,
            length: None,
        }
    }
}

/// The title shown for a track: its title, or "Unknown" when it has none.
pub open spec fn track_title(t: TrackInfo) -> Seq<char> {
    match t.title {
        Some(s) => s@,
        None => "Unknown"@,
    }
}

/// The artist shown for a track: the first of its artists, or nothing.
pub open spec fn track_artist(t: TrackInfo) -> Seq<char> {
    match t.artists {
        Some(a) => if a@.len() > 0 {
            a@[0]@
        } else {
            Seq::<char>::empty()
        },
        None => Seq::<char>::empty(),
    }
}

/// The whole seconds of a time in microseconds.
pub open spec fn whole_seconds(us: nat) -> nat {
    us / 1_000_000
}

/// A time in microseconds as `mm:ss`: whole minutes and the seconds left,
/// each padded to two digits (minutes may take more).
pub open spec fn minutes_seconds_text(us: nat) -> Seq<char> {
    decimal_pad2(whole_seconds(us) / 60) + seq![':'] + decimal_pad2(whole_seconds(us) % 60)
}

/// The progress label `position / length`: a missing position counts as
/// 0, a missing length as one second.
pub open spec fn progress_text(position: Option<u64>, length: Option<u64>) -> Seq<char> {
    let p: nat = match position {
        Some(p) => p as nat,
        None => 0,
    };
    let l: nat = match length {
        Some(l) => l as nat,
        None => 1_000_000,
    };
    minutes_seconds_text(p) + seq![' ', '/', ' '] + minutes_seconds_text(l)
}

/// The title label: titles longer than 14 bytes are cut to their first
/// 15 bytes, followed by "...".
pub open spec fn title_label_text(title: Seq<char>) -> Seq<char> {
    let bytes = encode_utf8(title);
    if bytes.len() <= 14 {
        title
    } else {
        decode_utf8(bytes.subrange(0, 15)) + "..."@
    }
}

/// Whether the title label can be made: a title longer than 14 bytes must
/// have a character boundary at byte 15.
pub open spec fn title_label_defined(title: Seq<char>) -> bool {
    let bytes = encode_utf8(title);
    bytes.len() <= 14 || is_char_boundary(bytes, 15)
}

/// The button that starts or stops playback.
#[derive(Debug, Clone, Copy, PartialEq, Eq, Structural)]
pub enum PlaybackIcon {
    Pause,
    Play,
}

impl MediaStatus {
    /// A pause button while playing and a play button while paused; there is
    /// none for a stopped player.
    pub fn control_icon(&self) -> (r: PlaybackIcon)
        requires
            *self != MediaStatus::Stopped,
        ensures
            r == (if *self == MediaStatus::Playing {
                PlaybackIcon::Pause
            } else {
                PlaybackIcon::Play
            }),
    {
        match self {
            MediaStatus::Playing => PlaybackIcon::Pause,
            _ => PlaybackIcon::Play,
        }
    }
}

impl MediaState {
    /// The state of the active player: the default state when none is found;
    /// otherwise its status (stopped when unknown), the track's title
    /// ("Unknown" when missing), first artist and length, its position and
    /// its name. When the track could not be read, title and artist are
    /// empty and there is no length.
    pub fn from_player(report: Option<PlayerReport>) -> (r: MediaState)
        ensures
            match report {
                None => is_default_media(r),
                Some(p) => {
                    &&& r.status == (match p.status {
                        Some(s) => s,
                        None => MediaStatus::Stopped,
                    })
                    &&& r.player_name@ == p.identity@
                    &&& r.position == p.position
                    &&& match p.track {
                        Some(t) => {
                            &&& r.title@ == track_title(t)
                            &&& r.artist@ == track_artist(t)
                            &&& r.length == t.length
                        },
                        None => {
                            &&& r.title@ == Seq::<char>::empty()
                            &&& r.artist@ == Seq::<char>::empty()
                            &&& r.length is None
                        },
                    }
                },
            },
    {
        match report {
            None => MediaState::default(),
            Some(p) => {
                let status = match p.status {
                    Some(s) => s,
                    None => MediaStatus::Stopped,
                };
                let (title, artist, length) = match &p.track {
                    Some(t) => {
                        let title = match &t.title {
                            Some(s) => s.clone(),
                            None => String::from_str("Unknown"),
                        };
                        let artist = match &t.artists {
                            Some(a) => if a.len() > 0 {
                                a[0].clone()
                            } else {
                                String::new()
                            },
                            None => String::new(),
                        };
                        (title, artist, t.length)
                    },
                    None => (String::new(), String::new(), None),
                };
                MediaState {
                    title,
                    artist,
                    status,
                    player_name: p.identity,
                    position: p.position,
                    length,
                }
            },
        }
    }

    /// The progress label, `mm:ss / mm:ss`.
    pub fn progress_label(&self) -> (r: String)
        ensures
            r@ == progress_text(self.position, self.length),
    {
        let p: u64 = match self.position {
            Some(p) => p,
            None => 0,
        };
        let l: u64 = match self.length {
            Some(l) => l,
            None => 1_000_000,
        };
        let mut r = String::new();
        let ps = p / 1_000_000;
        push_decimal_pad2(&mut r, ps / 60);
        push_char(&mut r, ':');
        push_decimal_pad2(&mut r, ps % 60);
        push_char(&mut r, ' ');
        push_char(&mut r, '/');
        push_char(&mut r, ' ');
        let ls = l / 1_000_000;
        push_decimal_pad2(&mut r, ls / 60);
        push_char(&mut r, ':');
        push_decimal_pad2(&mut r, ls % 60);
        assert(r@ =~= progress_text(self.position, self.length));
        r
    }

    /// The title label; see [`title_label_text`].
    pub fn title_label(&self) -> (r: String)
        requires
            encode_utf8(self.title@).len() <= usize::MAX,
            title_label_defined(self.title@),
        ensures
            r@ == title_label_text(self.title@),
    {
        let t = self.title.as_str();
        if t.len() > 14 {
            let (head, _) = t.split_at(15);
            proof {
                encode_utf8_decode_utf8(head@);
            }
            let mut r = String::from_str(head);
            r.append("...");
            r
        } else {
            String::from_str(t)
        }
    }
}

} // verus!
