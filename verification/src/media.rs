use vstd::prelude::*;

use vstd::string::StringSliceAdditionalSpecFns;
use vstd::utf8::encode_utf8;

verus! {

/// The player's coarse playback state.
#[derive(Clone, Copy, Debug, PartialEq, Eq, Structural)]
pub enum MediaState {
    Playing,
    Paused,
    Stopped,
}

impl Default for MediaState {
    fn default() -> (r: Self)
        ensures
            r == MediaState::Stopped,
    {
        Self::Stopped
    }
}

/// A now-playing snapshot forwarded to the band's music screen. Every
/// field but the state is optional; absent fields are left out of the
/// wire payload and their flag bits stay clear.
#[derive(Clone, Debug)]
pub struct MediaInfo {
    pub track: Option<String>,
    pub volume: Option<u8>,
    pub position: Option<u64>,
    pub duration: Option<u64>,
    pub state: MediaState,
}

impl Default for MediaInfo {
    fn default() -> (r: Self)
        ensures
            r.track is None,
            r.volume is None,
            r.position is None,
            r.duration is None,
            r.state == MediaState::Stopped,
    {
        Self { track: None, volume: None, position: None, duration: None, state: MediaState::Stopped }
    }
}

/// A value's low sixteen bits, little-endian.
pub open spec fn spec_le2(v: int) -> Seq<u8> {
    seq![(v % 256) as u8, ((v / 256) % 256) as u8]
}

/// The payload's flag byte: `0x01` always, `0x08` when a track name is
/// present, `0x10` when the duration is known, `0x40` when the volume is.
pub open spec fn spec_media_flags(m: MediaInfo) -> u8 {
    let track_bit: int = if m.track is Some {
        8
    } else {
        0
    };
    let duration_bit: int = if m.duration is Some {
        16
    } else {
        0
    };
    let volume_bit: int = if m.volume is Some {
        64
    } else {
        0
    };
    (1 + track_bit + duration_bit + volume_bit) as u8
}

/// The now-playing payload: flags, playing byte and a zero, then the
/// position, the zero-terminated track name if any, the duration if
/// known, and the volume if known.
pub open spec fn spec_media_payload(m: MediaInfo) -> Seq<u8> {
    seq![
        spec_media_flags(m),
        if m.state == MediaState::Playing {
            1u8
        } else {
            0u8
        },
        0u8,
    ] + spec_le2(
        match m.position {
            Some(p) => p as int,
            None => 0,
        },
    ) + (match m.track {
        Some(t) => encode_utf8(t@) + seq![0u8],
        None => Seq::<u8>::empty(),
    }) + (match m.duration {
        Some(d) => spec_le2(d as int),
        None => Seq::<u8>::empty(),
    }) + (match m.volume {
        Some(v) => spec_le2(v as int),
        None => Seq::<u8>::empty(),
    })
}

/// The five zero bytes that clear the band's now-playing screen.
pub open spec fn spec_clear_media_bytes() -> Seq<u8> {
    seq![0u8, 0u8, 0u8, 0u8, 0u8]
}

/// Build the now-playing payload for a snapshot, or the clearing payload
/// when there is none.
pub fn media_payload(media: &Option<MediaInfo>) -> (r: Vec<u8>)
    ensures
        match media {
            Some(m) => r@ == spec_media_payload(*m),
            None => r@ == spec_clear_media_bytes(),
        },
{
    match media {
        Some(m) => {
            let mut flags: u8 = 1;
            if m.track.is_some() {
                flags = flags + 8;
            }
            if m.duration.is_some() {
                flags = flags + 16;
            }
            if m.volume.is_some() {
                flags = flags + 64;
            }
            let mut out: Vec<u8> = Vec::new();
            out.push(flags);
            out.push(if m.state == MediaState::Playing { 1 } else { 0 });
            out.push(0);
            let pos: u64 = match &m.position {
                Some(p) => *p,
                None => 0,
            };
            out.push((pos % 256) as u8);
            out.push(((pos / 256) % 256) as u8);
            match &m.track {
                Some(t) => {
                    let t_str: &str = t.as_str();
                    crate::codec::append_bytes(&mut out, t_str.as_bytes());
                    out.push(0);
                },
                None => {},
            }
            match &m.duration {
                Some(d) => {
                    out.push((*d % 256) as u8);
                    out.push(((*d / 256) % 256) as u8);
                },
                None => {},
            }
            match &m.volume {
                Some(v) => {
                    out.push(*v);
                    out.push(0);
                },
                None => {},
            }
            proof {
                assert(out@ =~= spec_media_payload(*m));
            }
            out
        },
        None => {
            let mut out: Vec<u8> = Vec::new();
            out.push(0);
            out.push(0);
            out.push(0);
            out.push(0);
            out.push(0);
            proof {
                assert(out@ =~= spec_clear_media_bytes());
            }
            out
        },
    }
}

/// The playback state named by a player's status text: anything but
/// "Playing" or "Paused" counts as stopped.
pub open spec fn spec_media_state_of_status(status: Seq<char>) -> MediaState {
    if status == "Playing"@ {
        MediaState::Playing
    } else if status == "Paused"@ {
        MediaState::Paused
    } else {
        MediaState::Stopped
    }
}

/// Map a player's status text onto a playback state.
pub fn media_state_of_status(status: &str) -> (r: MediaState)
    ensures
        r == spec_media_state_of_status(status@),
{
    let playing = String::from_str("Playing");
    let paused = String::from_str("Paused");
    let s = status.to_owned();
    if s == playing {
        MediaState::Playing
    } else if s == paused {
        MediaState::Paused
    } else {
        MediaState::Stopped
    }
}

} // verus!
