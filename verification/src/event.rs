//! One event of a track: its kind and its encoded bytes.

use crate::bytes::{be_u24, be_value, data_bytes, lemma_be_round_trip};
use crate::kind::{EventKind, MIDIEvent, MetaEvent};
use crate::random::{uniform, uniform_bytes};
use vstd::prelude::*;

verus! {

/// Every byte is a printable ASCII character.
pub open spec fn printable(text: Seq<u8>) -> bool {
    forall|i: int| 0 <= i < text.len() ==> 32 <= #[trigger] text[i] && text[i] < 128
}

/// The byte that stores `v` in two's complement.
pub open spec fn twos_complement(v: i8) -> u8 {
    if v >= 0 {
        v as u8
    } else {
        (v + 256) as u8
    }
}

/// The signed number that the byte `b` stores in two's complement.
pub open spec fn signed_value(b: u8) -> int {
    if b < 128 {
        b as int
    } else {
        b - 256
    }
}

/// Encoding of a channel-voice event: the status byte carries the family in its
/// upper nibble and the channel in its lower nibble, the data bytes follow.
pub open spec fn channel_voice_bytes(kind: MIDIEvent, channel: u8, data: Seq<u8>) -> Seq<u8> {
    seq![kind.status_base() | channel] + data
}

/// Encoding of a meta event: the marker `0xFF`, the type byte, one byte that
/// declares the size of the payload, and the payload.
pub open spec fn meta_bytes(kind: MetaEvent, payload: Seq<u8>) -> Seq<u8> {
    seq![0xFFu8, kind.type_code(), payload.len() as u8] + payload
}

/// `bytes` has the layout of a channel-voice event of family `kind`.
pub open spec fn channel_voice_layout(kind: MIDIEvent, bytes: Seq<u8>) -> bool {
    &&& bytes.len() == 1 + kind.data_len()
    &&& bytes[0] & 0xF0 == kind.status_base()
    &&& data_bytes(bytes.skip(1))
}

/// `bytes` has the layout of a meta event of kind `kind`: the declared size is
/// the size of what follows it, and that size is legal for the kind.
pub open spec fn meta_layout(kind: MetaEvent, bytes: Seq<u8>) -> bool {
    &&& bytes.len() >= 3
    &&& bytes[0] == 0xFF
    &&& bytes[1] == kind.type_code()
    &&& bytes[2] == bytes.len() - 3
    &&& kind.payload_len_ok((bytes.len() - 3) as nat)
}

/// The payloads that random generation produces for `kind`.
pub open spec fn payload_sampled(kind: MetaEvent, payload: Seq<u8>) -> bool {
    match kind {
        MetaEvent::MIDIChannelPrefix => payload.len() == 1 && payload[0] < 16,
        MetaEvent::MIDIPort => payload.len() == 1 && payload[0] < 128,
        MetaEvent::EndOfTrack => payload.len() == 0,
        MetaEvent::Tempo => payload.len() == 3 && 100_000 <= be_value(payload) < 5_000_000,
        MetaEvent::TimeSignature => {
            &&& payload.len() == 4
            &&& 1 <= payload[0] < 33
            &&& payload[1] < 7
            &&& 1 <= payload[2] < 65
            &&& payload[3] == 8
        },
        MetaEvent::KeySignature => {
            &&& payload.len() == 2
            &&& -7 <= signed_value(payload[0]) < 8
            &&& payload[1] < 2
        },
        _ => 1 <= payload.len() < 50 && printable(payload),
    }
}

/// The encoding of a channel-voice event has the channel-voice layout, and its
/// lower nibble gives the channel back.
pub proof fn lemma_channel_voice_layout(kind: MIDIEvent, channel: u8, data: Seq<u8>)
    requires
        channel < 16,
        data.len() == kind.data_len(),
        data_bytes(data),
    ensures
        channel_voice_layout(kind, channel_voice_bytes(kind, channel, data)),
        channel_voice_bytes(kind, channel, data)[0] & 0x0F == channel,
        channel_voice_bytes(kind, channel, data).skip(1) == data,
{
    let base: u8 = kind.status_base();
    assert(base & 0x0F == 0) by {
        assert(0x80u8 & 0x0F == 0 && 0x90u8 & 0x0F == 0 && 0xA0u8 & 0x0F == 0 && 0xB0u8 & 0x0F
            == 0 && 0xC0u8 & 0x0F == 0 && 0xD0u8 & 0x0F == 0 && 0xE0u8 & 0x0F == 0)
            by (bit_vector);
    }
    assert((base | channel) & 0xF0 == base && (base | channel) & 0x0F == channel)
        by (bit_vector)
        requires
            base & 0x0F == 0,
            channel < 16,
    ;
    assert(channel_voice_bytes(kind, channel, data).skip(1) =~= data);
}

/// The encoding of a meta event has the meta layout, and what follows its first
/// three bytes is the payload.
pub proof fn lemma_meta_layout(kind: MetaEvent, payload: Seq<u8>)
    requires
        kind.payload_len_ok(payload.len()),
    ensures
        meta_layout(kind, meta_bytes(kind, payload)),
        meta_bytes(kind, payload).skip(3) == payload,
{
    assert(meta_bytes(kind, payload).skip(3) =~= payload);
}

/// A well-formed event has at least 2 and at most 258 bytes.
pub proof fn lemma_event_size(event: Event)
    requires
        event.well_formed(),
    ensures
        2 <= event.data@.len() <= 258,
{
}

/// Storing a count in two's complement and reading it back gives the count.
pub proof fn lemma_signed_round_trip(v: i8)
    ensures
        signed_value(twos_complement(v)) == v,
{
}

/// The payload of a tempo event: `micros` microseconds per quarter note as a
/// 24-bit number, high byte first.
pub fn tempo_payload(micros: u32) -> (payload: Vec<u8>)
    requires
        micros < 0x100_0000,
    ensures
        payload@ == be_u24(micros),
        be_value(payload@) == micros,
{
    let high: u8 = ((micros & 0xFF0000) >> 16) as u8;
    let middle: u8 = ((micros & 0x00FF00) >> 8) as u8;
    let low: u8 = (micros & 0x0000FF) as u8;
    assert((micros & 0xFF0000) >> 16 == micros / 0x1_0000 % 0x100 && (micros & 0x00FF00) >> 8
        == micros / 0x100 % 0x100 && micros & 0x0000FF == micros % 0x100) by (bit_vector);
    let payload: Vec<u8> = vec![high, middle, low];
    proof {
        assert(payload@ =~= be_u24(micros));
        lemma_be_round_trip(micros);
    }
    payload
}

/// The payload of a time signature event: the numerator, the denominator as a
/// power of two, the MIDI clocks per metronome click, and the fixed count of 8
/// notated 32nd notes per quarter note.
pub fn time_signature_payload(
    numerator: u8,
    denominator_power: u8,
    clocks_per_click: u8,
) -> (payload: Vec<u8>)
    ensures
        payload@ == seq![numerator, denominator_power, clocks_per_click, 8u8],
{
    let payload: Vec<u8> = vec![numerator, denominator_power, clocks_per_click, 0x08];
    assert(payload@ =~= seq![numerator, denominator_power, clocks_per_click, 8u8]);
    payload
}

/// The payload of a key signature event: the count of sharps (positive) or flats
/// (negative) in two's complement, and the mode (0 major, 1 minor).
pub fn key_signature_payload(sharps: i8, mode: u8) -> (payload: Vec<u8>)
    ensures
        payload@ == seq![twos_complement(sharps), mode],
{
    let stored: u8 = sharps as u8;
    assert(sharps as u8 == if sharps >= 0 {
        sharps as u8
    } else {
        (sharps + 256) as u8
    }) by (bit_vector);
    let payload: Vec<u8> = vec![stored, mode];
    assert(payload@ =~= seq![twos_complement(sharps), mode]);
    payload
}

/// `n` characters, each drawn uniformly from the printable ASCII range.
pub fn generate_random_characters(n: u32) -> (chars: Vec<u8>)
    ensures
        chars.len() == n,
        printable(chars@),
{
    uniform_bytes(n as usize, 32, 128)
}

/// One event: its kind, and the bytes that encode it.
#[derive(Debug)]
pub struct Event {
    pub kind: EventKind,
    pub data: Vec<u8>,
}

impl Event {
    /// The bytes have the layout that the kind calls for.
    pub open spec fn well_formed(&self) -> bool {
        match self.kind {
            EventKind::Midi(kind) => channel_voice_layout(kind, self.data@),
            EventKind::Meta(kind) => meta_layout(kind, self.data@),
        }
    }

    /// The event is one that random generation produces: it is well formed, and
    /// the payload of a meta event lies in the ranges that are sampled.
    pub open spec fn in_sampling_ranges(&self) -> bool {
        &&& self.well_formed()
        &&& self.kind matches EventKind::Meta(kind) ==> payload_sampled(kind, self.data@.skip(3))
    }

    /// The channel-voice event of family `kind` on `channel` with the given data
    /// bytes.
    pub fn channel_voice(kind: MIDIEvent, channel: u8, data: Vec<u8>) -> (event: Event)
        requires
            channel < 16,
            data.len() == kind.data_len(),
            data_bytes(data@),
        ensures
            event.kind == EventKind::Midi(kind),
            event.data@ == channel_voice_bytes(kind, channel, data@),
            event.well_formed(),
    {
        let mut tail = data;
        let mut bytes: Vec<u8> = Vec::new();
        bytes.push(kind.status_base() | channel);
        bytes.append(&mut tail);
        proof {
            lemma_channel_voice_layout(kind, channel, data@);
        }
        Event { kind: EventKind::Midi(kind), data: bytes }
    }

    /// The meta event of kind `kind` that carries `payload`.
    pub fn meta(kind: MetaEvent, payload: Vec<u8>) -> (event: Event)
        requires
            kind.payload_len_ok(payload.len() as nat),
        ensures
            event.kind == EventKind::Meta(kind),
            event.data@ == meta_bytes(kind, payload@),
            event.well_formed(),
    {
        let mut tail = payload;
        let mut bytes: Vec<u8> = Vec::new();
        bytes.push(0xFF);
        bytes.push(kind.type_code());
        bytes.push(tail.len() as u8);
        bytes.append(&mut tail);
        proof {
            lemma_meta_layout(kind, payload@);
        }
        Event { kind: EventKind::Meta(kind), data: bytes }
    }

    /// A channel-voice event of family `kind` on a random channel with random
    /// data bytes.
    pub fn new_midi_event(kind: MIDIEvent) -> (event: Event)
        ensures
            event.kind == EventKind::Midi(kind),
            event.well_formed(),
            event.in_sampling_ranges(),
    {
        let channel: i32 = uniform(0, 16);
        let data = uniform_bytes(kind.data_len(), 0, 128);
        Event::channel_voice(kind, channel as u8, data)
    }

    /// A meta event of kind `kind` with a random payload.
    ///
    /// A text kind gets 1 to 49 printable characters; a channel prefix a channel
    /// below 16; a port a number below 128; a tempo 100000 to 4999999
    /// microseconds per quarter note; a time signature a numerator of 1 to 32, a
    /// denominator power below 7 and 1 to 64 clocks per click; a key signature
    /// -7 to 7 sharps and a mode below 2. End of track has no payload.
    pub fn new_meta_event(kind: MetaEvent) -> (event: Event)
        ensures
            event.kind == EventKind::Meta(kind),
            event.well_formed(),
            event.in_sampling_ranges(),
            event.data@[0] == 0xFF,
            event.data@[1] == kind.type_code(),
            event.data@[2] == event.data@.len() - 3,
    {
        let payload: Vec<u8> = match kind {
            MetaEvent::MIDIChannelPrefix => {
                let channel: i32 = uniform(0, 16);
                vec![channel as u8]
            },
            MetaEvent::MIDIPort => {
                let port: i32 = uniform(0, 128);
                vec![port as u8]
            },
            MetaEvent::EndOfTrack => Vec::new(),
            MetaEvent::Tempo => {
                let micros: i32 = uniform(100_000, 5_000_000);
                tempo_payload(micros as u32)
            },
            MetaEvent::TimeSignature => {
                let numerator: i32 = uniform(1, 33);
                let denominator_power: i32 = uniform(0, 7);
                let clocks_per_click: i32 = uniform(1, 65);
                time_signature_payload(
                    numerator as u8,
                    denominator_power as u8,
                    clocks_per_click as u8,
                )
            },
            MetaEvent::KeySignature => {
                let sharps: i32 = uniform(-7, 8);
                let mode: i32 = uniform(0, 2);
                proof {
                    lemma_signed_round_trip(sharps as i8);
                }
                key_signature_payload(sharps as i8, mode as u8)
            },
            _ => {
                let length: i32 = uniform(1, 50);
                generate_random_characters(length as u32)
            },
        };
        proof {
            lemma_meta_layout(kind, payload@);
        }
        Event::meta(kind, payload)
    }

    /// A random event of the given kind.
    pub fn new(kind: EventKind) -> (event: Event)
        ensures
            event.kind == kind,
            event.well_formed(),
            event.in_sampling_ranges(),
    {
        match kind {
            EventKind::Midi(family) => Event::new_midi_event(family),
            EventKind::Meta(meta) => Event::new_meta_event(meta),
        }
    }

    /// The three events of a tempo map, in this order: tempo, time signature, key
    /// signature, each with a random payload.
    pub fn generate_mandatory_meta_events() -> (events: Vec<Event>)
        ensures
            events.len() == 3,
            events[0].kind == EventKind::Meta(MetaEvent::Tempo),
            events[1].kind == EventKind::Meta(MetaEvent::TimeSignature),
            events[2].kind == EventKind::Meta(MetaEvent::KeySignature),
            forall|i: int| 0 <= i < 3 ==> (#[trigger] events[i]).in_sampling_ranges(),
    {
        let mut events: Vec<Event> = Vec::new();
        events.push(Event::new_meta_event(MetaEvent::Tempo));
        events.push(Event::new_meta_event(MetaEvent::TimeSignature));
        events.push(Event::new_meta_event(MetaEvent::KeySignature));
        events
    }
}

} // verus!
