use midi_generator::event::{
    generate_random_characters, key_signature_payload, tempo_payload, time_signature_payload, Event,
};
use midi_generator::kind::{EventKind, MIDIEvent, MetaEvent};

const ALL_META: [MetaEvent; 13] = [
    MetaEvent::Text,
    MetaEvent::SequenceORTrackName,
    MetaEvent::InstrumentName,
    MetaEvent::Lyric,
    MetaEvent::ProgramName,
    MetaEvent::MIDIChannelPrefix,
    MetaEvent::MIDIPort,
    MetaEvent::EndOfTrack,
    MetaEvent::Marker,
    MetaEvent::CuePoint,
    MetaEvent::Tempo,
    MetaEvent::TimeSignature,
    MetaEvent::KeySignature,
];

const ALL_MIDI: [MIDIEvent; 7] = [
    MIDIEvent::NoteOff,
    MIDIEvent::NoteOn,
    MIDIEvent::PolyphonicPressure,
    MIDIEvent::Controller,
    MIDIEvent::ProgramChange,
    MIDIEvent::ChannelPressure,
    MIDIEvent::PitchBend,
];

#[test]
fn midi_families_by_index() {
    for (index, kind) in ALL_MIDI.iter().enumerate() {
        assert_eq!(MIDIEvent::from_index(index as u32), *kind);
    }
}

#[test]
fn meta_kinds_by_index() {
    for (index, kind) in ALL_META.iter().enumerate() {
        assert_eq!(MetaEvent::from_index(index as u32), *kind);
    }
}

#[test]
fn inner_kinds_skip_end_of_track() {
    for position in 0..7u32 {
        assert_eq!(MetaEvent::inner_kind(position), ALL_META[position as usize]);
    }
    for position in 7..12u32 {
        assert_eq!(MetaEvent::inner_kind(position), ALL_META[position as usize + 1]);
    }
}

#[test]
fn status_bases_and_data_lengths() {
    let bases = [0x80u8, 0x90, 0xA0, 0xB0, 0xC0, 0xD0, 0xE0];
    let lengths = [2usize, 2, 2, 2, 1, 1, 2];
    for (index, kind) in ALL_MIDI.iter().enumerate() {
        assert_eq!(kind.status_base(), bases[index]);
        assert_eq!(kind.data_len(), lengths[index]);
    }
}

#[test]
fn meta_type_codes() {
    let codes = [0x01u8, 0x03, 0x04, 0x05, 0x08, 0x20, 0x21, 0x2F, 0x06, 0x07, 0x51, 0x58, 0x59];
    for (index, kind) in ALL_META.iter().enumerate() {
        assert_eq!(kind.type_code(), codes[index]);
    }
}

#[test]
fn only_end_of_track_ends_a_track() {
    for kind in ALL_META {
        assert_eq!(EventKind::Meta(kind).is_end_of_track(), kind == MetaEvent::EndOfTrack);
    }
    for kind in ALL_MIDI {
        assert!(!EventKind::Midi(kind).is_end_of_track());
    }
}

#[test]
fn random_midi_families_cover_all_seven() {
    let mut seen = [false; 7];
    for _ in 0..1000 {
        let kind = MIDIEvent::pick_random();
        let index = ALL_MIDI.iter().position(|k| *k == kind).unwrap();
        seen[index] = true;
    }
    assert_eq!(seen, [true; 7]);
}

#[test]
fn random_meta_kinds_stay_in_their_range() {
    let mut seen = [false; 13];
    for _ in 0..1000 {
        let kind = MetaEvent::pick_random(8, 13);
        let index = ALL_META.iter().position(|k| *k == kind).unwrap();
        assert!(index >= 8 && index < 13);
        seen[index] = true;
    }
    assert_eq!(&seen[8..], &[true; 5]);
    for _ in 0..1000 {
        let kind = MetaEvent::pick_random(0, 13);
        let index = ALL_META.iter().position(|k| *k == kind).unwrap();
        seen[index] = true;
    }
    assert_eq!(seen, [true; 13]);
    for _ in 0..20 {
        assert_eq!(MetaEvent::pick_random(7, 8), MetaEvent::EndOfTrack);
    }
}

#[test]
fn channel_voice_bytes() {
    let event = Event::channel_voice(MIDIEvent::NoteOn, 3, vec![60, 100]);
    assert_eq!(event.kind, EventKind::Midi(MIDIEvent::NoteOn));
    assert_eq!(event.data, vec![0x93, 60, 100]);
    let event = Event::channel_voice(MIDIEvent::NoteOff, 0, vec![0, 0]);
    assert_eq!(event.data, vec![0x80, 0, 0]);
    let event = Event::channel_voice(MIDIEvent::ProgramChange, 15, vec![127]);
    assert_eq!(event.data, vec![0xCF, 127]);
    let event = Event::channel_voice(MIDIEvent::PitchBend, 9, vec![0x00, 0x40]);
    assert_eq!(event.data, vec![0xE9, 0x00, 0x40]);
}

#[test]
fn meta_bytes() {
    let event = Event::meta(MetaEvent::MIDIPort, vec![5]);
    assert_eq!(event.kind, EventKind::Meta(MetaEvent::MIDIPort));
    assert_eq!(event.data, vec![0xFF, 0x21, 0x01, 5]);
    let event = Event::meta(MetaEvent::EndOfTrack, vec![]);
    assert_eq!(event.data, vec![0xFF, 0x2F, 0x00]);
    let event = Event::meta(MetaEvent::Text, vec![b'h', b'i']);
    assert_eq!(event.data, vec![0xFF, 0x01, 0x02, b'h', b'i']);
    let event = Event::meta(MetaEvent::Marker, vec![]);
    assert_eq!(event.data, vec![0xFF, 0x06, 0x00]);
    let long = vec![b'x'; 255];
    let event = Event::meta(MetaEvent::Lyric, long);
    assert_eq!(event.data.len(), 258);
    assert_eq!(&event.data[..3], &[0xFF, 0x05, 0xFF]);
}

#[test]
fn tempo_payload_is_big_endian() {
    assert_eq!(tempo_payload(500_000), vec![0x07, 0xA1, 0x20]);
    assert_eq!(tempo_payload(0), vec![0, 0, 0]);
    assert_eq!(tempo_payload(0xFF_FFFF), vec![0xFF, 0xFF, 0xFF]);
    assert_eq!(tempo_payload(100_000), vec![0x01, 0x86, 0xA0]);
    assert_eq!(tempo_payload(4_999_999), vec![0x4C, 0x4B, 0x3F]);
}

#[test]
fn time_signature_payload_ends_with_eight() {
    assert_eq!(time_signature_payload(6, 3, 24), vec![6, 3, 24, 8]);
    assert_eq!(time_signature_payload(1, 0, 1), vec![1, 0, 1, 8]);
}

#[test]
fn key_signature_payload_is_twos_complement() {
    assert_eq!(key_signature_payload(0, 0), vec![0x00, 0]);
    assert_eq!(key_signature_payload(7, 1), vec![0x07, 1]);
    assert_eq!(key_signature_payload(-1, 0), vec![0xFF, 0]);
    assert_eq!(key_signature_payload(-7, 1), vec![0xF9, 1]);
    assert_eq!(key_signature_payload(-128, 0), vec![0x80, 0]);
}

#[test]
fn tempo_event_starts_with_its_header() {
    let event = Event::new_meta_event(MetaEvent::Tempo);
    assert_eq!(&event.data[..3], &[0xFF, 0x51, 0x03]);
    assert_eq!(event.data.len(), 6);
    let micros = ((event.data[3] as u32) << 16) | ((event.data[4] as u32) << 8) | event.data[5] as u32;
    assert!(micros >= 100_000 && micros < 5_000_000);
}

#[test]
fn tempo_events_stay_in_range_and_vary() {
    let mut values: Vec<u32> = Vec::new();
    for _ in 0..500 {
        let event = Event::new_meta_event(MetaEvent::Tempo);
        assert_eq!(event.kind, EventKind::Meta(MetaEvent::Tempo));
        assert_eq!(&event.data[..3], &[0xFF, 0x51, 0x03]);
        let micros = ((event.data[3] as u32) << 16) | ((event.data[4] as u32) << 8) | event.data[5] as u32;
        assert!(micros >= 100_000 && micros < 5_000_000);
        values.push(micros);
    }
    assert!(values.iter().any(|v| *v != values[0]));
    assert!(values.iter().any(|v| *v != 100_000));
}

#[test]
fn meta_length_byte_counts_the_payload() {
    for kind in ALL_META {
        for _ in 0..200 {
            let event = Event::new_meta_event(kind);
            assert_eq!(event.kind, EventKind::Meta(kind));
            assert_eq!(event.data[0], 0xFF);
            assert_eq!(event.data[1], kind.type_code());
            assert_eq!(event.data[2] as usize, event.data.len() - 3);
        }
    }
}

#[test]
fn text_events_hold_printable_characters() {
    let text_kinds = [
        MetaEvent::Text,
        MetaEvent::SequenceORTrackName,
        MetaEvent::InstrumentName,
        MetaEvent::Lyric,
        MetaEvent::ProgramName,
        MetaEvent::Marker,
        MetaEvent::CuePoint,
    ];
    for kind in text_kinds {
        for _ in 0..200 {
            let event = Event::new_meta_event(kind);
            let length = event.data[2];
            assert!(length >= 1 && length < 50);
            for byte in &event.data[3..] {
                assert!(*byte >= 32 && *byte < 128);
            }
        }
    }
}

#[test]
fn fixed_meta_events_have_their_sizes_and_ranges() {
    for _ in 0..300 {
        let prefix = Event::new_meta_event(MetaEvent::MIDIChannelPrefix);
        assert_eq!(&prefix.data[..3], &[0xFF, 0x20, 0x01]);
        assert_eq!(prefix.data.len(), 4);
        assert!(prefix.data[3] < 16);

        let port = Event::new_meta_event(MetaEvent::MIDIPort);
        assert_eq!(&port.data[..3], &[0xFF, 0x21, 0x01]);
        assert_eq!(port.data.len(), 4);
        assert!(port.data[3] < 128);

        let end = Event::new_meta_event(MetaEvent::EndOfTrack);
        assert_eq!(end.data, vec![0xFF, 0x2F, 0x00]);

        let time = Event::new_meta_event(MetaEvent::TimeSignature);
        assert_eq!(&time.data[..3], &[0xFF, 0x58, 0x04]);
        assert_eq!(time.data.len(), 7);
        assert!(time.data[3] >= 1 && time.data[3] < 33);
        assert!(time.data[4] < 7);
        assert!(time.data[5] >= 1 && time.data[5] < 65);
        assert_eq!(time.data[6], 8);

        let key = Event::new_meta_event(MetaEvent::KeySignature);
        assert_eq!(&key.data[..3], &[0xFF, 0x59, 0x02]);
        assert_eq!(key.data.len(), 5);
        let sharps = key.data[3] as i8;
        assert!(sharps >= -7 && sharps < 8);
        assert!(key.data[4] < 2);
    }
}

#[test]
fn key_signatures_reach_flats_and_sharps() {
    let mut flats = false;
    let mut sharps = false;
    for _ in 0..500 {
        let key = Event::new_meta_event(MetaEvent::KeySignature);
        let count = key.data[3] as i8;
        if count < 0 {
            flats = true;
        }
        if count > 0 {
            sharps = true;
        }
    }
    assert!(flats);
    assert!(sharps);
}

#[test]
fn channel_voice_events_have_status_and_data_bytes() {
    for kind in ALL_MIDI {
        let mut channels = [false; 16];
        for _ in 0..500 {
            let event = Event::new_midi_event(kind);
            assert_eq!(event.kind, EventKind::Midi(kind));
            assert_eq!(event.data.len(), 1 + kind.data_len());
            assert_eq!(event.data[0] & 0xF0, kind.status_base());
            channels[(event.data[0] & 0x0F) as usize] = true;
            for byte in &event.data[1..] {
                assert!(*byte < 128);
            }
        }
        assert_eq!(channels, [true; 16]);
    }
}

#[test]
fn event_of_a_kind_has_that_kind() {
    for kind in ALL_META {
        assert_eq!(Event::new(EventKind::Meta(kind)).kind, EventKind::Meta(kind));
    }
    for kind in ALL_MIDI {
        assert_eq!(Event::new(EventKind::Midi(kind)).kind, EventKind::Midi(kind));
    }
}

#[test]
fn mandatory_events_are_the_tempo_map() {
    for _ in 0..100 {
        let events = Event::generate_mandatory_meta_events();
        assert_eq!(events.len(), 3);
        assert_eq!(events[0].kind, EventKind::Meta(MetaEvent::Tempo));
        assert_eq!(events[1].kind, EventKind::Meta(MetaEvent::TimeSignature));
        assert_eq!(events[2].kind, EventKind::Meta(MetaEvent::KeySignature));
        assert_eq!(&events[0].data[..3], &[0xFF, 0x51, 0x03]);
        assert_eq!(&events[1].data[..3], &[0xFF, 0x58, 0x04]);
        assert_eq!(&events[2].data[..3], &[0xFF, 0x59, 0x02]);
        assert_eq!(events[0].data.len(), 6);
        assert_eq!(events[1].data.len(), 7);
        assert_eq!(events[2].data.len(), 5);
    }
}

#[test]
fn random_characters_are_printable() {
    let chars = generate_random_characters(3000);
    assert_eq!(chars.len(), 3000);
    for byte in &chars {
        assert!(*byte >= 32 && *byte < 128);
    }
    assert!(chars.iter().any(|c| *c != 32));
    assert!(chars.iter().any(|c| *c != chars[0]));
    assert_eq!(generate_random_characters(0).len(), 0);
}
