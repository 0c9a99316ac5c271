//! The kinds of event a track can hold.

use crate::random::uniform;
use vstd::prelude::*;

verus! {

/// The channel-voice event families.
#[derive(Debug, Copy, Clone, PartialEq, Eq, Structural)]
pub enum MIDIEvent {
    NoteOff,
    NoteOn,
    PolyphonicPressure,
    Controller,
    ProgramChange,
    ChannelPressure,
    PitchBend,
}

impl MIDIEvent {
    /// Position of the family in the declaration order, from 0.
    pub open spec fn index(self) -> int {
        match self {
            MIDIEvent::NoteOff => 0,
            MIDIEvent::NoteOn => 1,
            MIDIEvent::PolyphonicPressure => 2,
            MIDIEvent::Controller => 3,
            MIDIEvent::ProgramChange => 4,
            MIDIEvent::ChannelPressure => 5,
            MIDIEvent::PitchBend => 6,
        }
    }

    /// Status byte of the family on channel 0: the family sits in the upper nibble.
    pub open spec fn spec_status_base(self) -> u8 {
        match self {
            MIDIEvent::NoteOff => 0x80,
            MIDIEvent::NoteOn => 0x90,
            MIDIEvent::PolyphonicPressure => 0xA0,
            MIDIEvent::Controller => 0xB0,
            MIDIEvent::ProgramChange => 0xC0,
            MIDIEvent::ChannelPressure => 0xD0,
            MIDIEvent::PitchBend => 0xE0,
        }
    }

    /// Number of data bytes that follow the status byte.
    pub open spec fn spec_data_len(self) -> usize {
        match self {
            MIDIEvent::ProgramChange | MIDIEvent::ChannelPressure => 1,
            _ => 2,
        }
    }

    #[verifier::when_used_as_spec(spec_status_base)]
    pub fn status_base(self) -> (base: u8)
        ensures
            base == self.spec_status_base(),
    {
        match self {
            MIDIEvent::NoteOff => 0x80,
            MIDIEvent::NoteOn => 0x90,
            MIDIEvent::PolyphonicPressure => 0xA0,
            MIDIEvent::Controller => 0xB0,
            MIDIEvent::ProgramChange => 0xC0,
            MIDIEvent::ChannelPressure => 0xD0,
            MIDIEvent::PitchBend => 0xE0,
        }
    }

    #[verifier::when_used_as_spec(spec_data_len)]
    pub fn data_len(self) -> (n: usize)
        ensures
            n == self.spec_data_len(),
    {
        match self {
            MIDIEvent::ProgramChange | MIDIEvent::ChannelPressure => 1,
            _ => 2,
        }
    }

    /// The family at position `index`.
    pub fn from_index(index: u32) -> (kind: MIDIEvent)
        requires
            index < 7,
        ensures
            kind.index() == index,
    {
        match index {
            0 => MIDIEvent::NoteOff,
            1 => MIDIEvent::NoteOn,
            2 => MIDIEvent::PolyphonicPressure,
            3 => MIDIEvent::Controller,
            4 => MIDIEvent::ProgramChange,
            5 => MIDIEvent::ChannelPressure,
            _ => MIDIEvent::PitchBend,
        }
    }

    /// A family drawn uniformly from the positions 0 to 6, which are all seven.
    pub fn pick_random() -> (kind: MIDIEvent)
        ensures
            0 <= kind.index() < 7,
    {
        let drawn: i32 = uniform(0, 7);
        MIDIEvent::from_index(drawn as u32)
    }
}

/// The meta event kinds.
#[derive(Debug, Copy, Clone, PartialEq, Eq, Structural)]
pub enum MetaEvent {
    Text,
    SequenceORTrackName,
    InstrumentName,
    Lyric,
    ProgramName,
    MIDIChannelPrefix,
    MIDIPort,
    EndOfTrack,
    Marker,
    CuePoint,
    Tempo,
    TimeSignature,
    KeySignature,
}

impl MetaEvent {
    /// Position of the kind in the declaration order, from 0. The timing kinds
    /// occupy positions 8 to 12.
    pub open spec fn index(self) -> int {
        match self {
            MetaEvent::Text => 0,
            MetaEvent::SequenceORTrackName => 1,
            MetaEvent::InstrumentName => 2,
            MetaEvent::Lyric => 3,
            MetaEvent::ProgramName => 4,
            MetaEvent::MIDIChannelPrefix => 5,
            MetaEvent::MIDIPort => 6,
            MetaEvent::EndOfTrack => 7,
            MetaEvent::Marker => 8,
            MetaEvent::CuePoint => 9,
            MetaEvent::Tempo => 10,
            MetaEvent::TimeSignature => 11,
            MetaEvent::KeySignature => 12,
        }
    }

    /// The type byte that follows the `0xFF` marker.
    pub open spec fn spec_type_code(self) -> u8 {
        match self {
            MetaEvent::Text => 0x01,
            MetaEvent::SequenceORTrackName => 0x03,
            MetaEvent::InstrumentName => 0x04,
            MetaEvent::Lyric => 0x05,
            MetaEvent::ProgramName => 0x08,
            MetaEvent::MIDIChannelPrefix => 0x20,
            MetaEvent::MIDIPort => 0x21,
            MetaEvent::EndOfTrack => 0x2F,
            MetaEvent::Marker => 0x06,
            MetaEvent::CuePoint => 0x07,
            MetaEvent::Tempo => 0x51,
            MetaEvent::TimeSignature => 0x58,
            MetaEvent::KeySignature => 0x59,
        }
    }

    /// The three kinds that make up a tempo map.
    pub open spec fn is_tempo_map(self) -> bool {
        match self {
            MetaEvent::Tempo | MetaEvent::TimeSignature | MetaEvent::KeySignature => true,
            _ => false,
        }
    }

    /// The kinds that carry timing: markers, cue points and the tempo map.
    pub open spec fn is_timing(self) -> bool {
        match self {
            MetaEvent::Marker
            | MetaEvent::CuePoint
            | MetaEvent::Tempo
            | MetaEvent::TimeSignature
            | MetaEvent::KeySignature => true,
            _ => false,
        }
    }

    /// The kinds that describe one track: its texts and names, its channel
    /// prefix and its port.
    pub open spec fn is_track_scoped(self) -> bool {
        match self {
            MetaEvent::Text
            | MetaEvent::SequenceORTrackName
            | MetaEvent::InstrumentName
            | MetaEvent::Lyric
            | MetaEvent::ProgramName
            | MetaEvent::MIDIChannelPrefix
            | MetaEvent::MIDIPort => true,
            _ => false,
        }
    }

    /// Whether a payload of `len` bytes has a legal size for this kind: the text
    /// of a text, name, lyric, marker or cue point may have any size that one
    /// length byte can declare, every other kind has one fixed size.
    pub open spec fn payload_len_ok(self, len: nat) -> bool {
        match self {
            MetaEvent::MIDIChannelPrefix | MetaEvent::MIDIPort => len == 1,
            MetaEvent::EndOfTrack => len == 0,
            MetaEvent::Tempo => len == 3,
            MetaEvent::TimeSignature => len == 4,
            MetaEvent::KeySignature => len == 2,
            _ => len <= 255,
        }
    }

    #[verifier::when_used_as_spec(spec_type_code)]
    pub fn type_code(self) -> (code: u8)
        ensures
            code == self.spec_type_code(),
    {
        match self {
            MetaEvent::Text => 0x01,
            MetaEvent::SequenceORTrackName => 0x03,
            MetaEvent::InstrumentName => 0x04,
            MetaEvent::Lyric => 0x05,
            MetaEvent::ProgramName => 0x08,
            MetaEvent::MIDIChannelPrefix => 0x20,
            MetaEvent::MIDIPort => 0x21,
            MetaEvent::EndOfTrack => 0x2F,
            MetaEvent::Marker => 0x06,
            MetaEvent::CuePoint => 0x07,
            MetaEvent::Tempo => 0x51,
            MetaEvent::TimeSignature => 0x58,
            MetaEvent::KeySignature => 0x59,
        }
    }

    /// The kind at position `index`.
    pub fn from_index(index: u32) -> (kind: MetaEvent)
        requires
            index < 13,
        ensures
            kind.index() == index,
    {
        match index {
            0 => MetaEvent::Text,
            1 => MetaEvent::SequenceORTrackName,
            2 => MetaEvent::InstrumentName,
            3 => MetaEvent::Lyric,
            4 => MetaEvent::ProgramName,
            5 => MetaEvent::MIDIChannelPrefix,
            6 => MetaEvent::MIDIPort,
            7 => MetaEvent::EndOfTrack,
            8 => MetaEvent::Marker,
            9 => MetaEvent::CuePoint,
            10 => MetaEvent::Tempo,
            11 => MetaEvent::TimeSignature,
            _ => MetaEvent::KeySignature,
        }
    }

    /// The kind at position `position` among the twelve kinds that may stand
    /// inside a track, which are all kinds but end of track.
    pub fn inner_kind(position: u32) -> (kind: MetaEvent)
        requires
            position < 12,
        ensures
            kind != MetaEvent::EndOfTrack,
            kind.index() == (if position < 7 {
                position as int
            } else {
                position + 1
            }),
    {
        if position < 7 {
            MetaEvent::from_index(position)
        } else {
            MetaEvent::from_index(position + 1)
        }
    }

    /// A kind drawn uniformly from the positions `lower..upper`.
    pub fn pick_random(lower: u32, upper: u32) -> (kind: MetaEvent)
        requires
            lower < upper <= 13,
        ensures
            lower <= kind.index() < upper,
    {
        let drawn: i32 = uniform(lower as i32, upper as i32);
        MetaEvent::from_index(drawn as u32)
    }
}

/// The kind of an event: a tag over the channel-voice and the meta family.
#[derive(Debug, Copy, Clone, PartialEq, Eq, Structural)]
pub enum EventKind {
    Midi(MIDIEvent),
    Meta(MetaEvent),
}

impl EventKind {
    /// Whether this is the kind that closes a track.
    pub open spec fn spec_is_end_of_track(self) -> bool {
        self == EventKind::Meta(MetaEvent::EndOfTrack)
    }

    /// Whether this is one of the three kinds that make up a tempo map.
    pub open spec fn is_tempo_map(self) -> bool {
        match self {
            EventKind::Midi(_) => false,
            EventKind::Meta(meta) => meta.is_tempo_map(),
        }
    }

    #[verifier::when_used_as_spec(spec_is_end_of_track)]
    pub fn is_end_of_track(self) -> (b: bool)
        ensures
            b == self.spec_is_end_of_track(),
    {
        match self {
            EventKind::Meta(MetaEvent::EndOfTrack) => true,
            _ => false,
        }
    }
}

} // verus!
