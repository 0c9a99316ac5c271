//! Track chunks: assembly of (delta-time, event) pairs under the composition
//! rules of each file format.

use crate::bytes::{be_u32, push_all, push_be_u32, push_tag};
use crate::delta_time::{create_delta_time, DeltaTime};
use crate::event::{lemma_event_size, Event};
use crate::kind::{EventKind, MIDIEvent, MetaEvent};
use crate::random::uniform;
use vstd::prelude::*;

verus! {

/// The chunk identifier `MTrk`.
pub open spec fn track_tag() -> Seq<u8> {
    seq![0x4Du8, 0x54u8, 0x72u8, 0x6Bu8]
}

/// The bytes of one pair: the delta-time, then the event.
pub open spec fn pair_bytes(pair: (DeltaTime, Event)) -> Seq<u8> {
    pair.0.data@ + pair.1.data@
}

/// The bytes of a track body: the bytes of its pairs in order.
pub open spec fn body_bytes(pairs: Seq<(DeltaTime, Event)>) -> Seq<u8>
    decreases pairs.len(),
{
    if pairs.len() == 0 {
        Seq::empty()
    } else {
        body_bytes(pairs.drop_last()) + pair_bytes(pairs.last())
    }
}

/// Some pair of `pairs` holds an event of kind `kind`.
pub open spec fn contains_kind(pairs: Seq<(DeltaTime, Event)>, kind: EventKind) -> bool {
    exists|i: int| 0 <= i < pairs.len() && (#[trigger] pairs[i]).1.kind == kind
}

/// `pairs` holds a tempo, a time signature and a key signature event.
pub open spec fn has_tempo_map(pairs: Seq<(DeltaTime, Event)>) -> bool {
    &&& contains_kind(pairs, EventKind::Meta(MetaEvent::Tempo))
    &&& contains_kind(pairs, EventKind::Meta(MetaEvent::TimeSignature))
    &&& contains_kind(pairs, EventKind::Meta(MetaEvent::KeySignature))
}

/// Some pair of `pairs` holds one of the three events of a tempo map.
pub open spec fn has_tempo_map_event(pairs: Seq<(DeltaTime, Event)>) -> bool {
    exists|i: int| 0 <= i < pairs.len() && (#[trigger] pairs[i]).1.kind.is_tempo_map()
}

/// Some pair of `pairs` holds a channel-voice event.
pub open spec fn has_channel_voice(pairs: Seq<(DeltaTime, Event)>) -> bool {
    exists|i: int| 0 <= i < pairs.len() && (#[trigger] pairs[i]).1.kind is Midi
}

/// Appending a pair adds its bytes to the body.
pub proof fn lemma_body_push(pairs: Seq<(DeltaTime, Event)>, pair: (DeltaTime, Event))
    ensures
        body_bytes(pairs.push(pair)) == body_bytes(pairs) + pair_bytes(pair),
{
    assert(pairs.push(pair).drop_last() =~= pairs);
}

/// Appending a pair keeps every kind that was there.
pub proof fn lemma_contains_kind_push(
    pairs: Seq<(DeltaTime, Event)>,
    pair: (DeltaTime, Event),
    kind: EventKind,
)
    requires
        contains_kind(pairs, kind) || pair.1.kind == kind,
    ensures
        contains_kind(pairs.push(pair), kind),
{
    let longer = pairs.push(pair);
    if contains_kind(pairs, kind) {
        let i: int = choose|i: int| 0 <= i < pairs.len() && (#[trigger] pairs[i]).1.kind == kind;
        assert(longer[i].1.kind == kind);
    } else {
        assert(longer[pairs.len() as int].1.kind == kind);
    }
}

/// Appending a pair keeps a tempo map that was there.
pub proof fn lemma_keeps_tempo_map(pairs: Seq<(DeltaTime, Event)>, pair: (DeltaTime, Event))
    requires
        has_tempo_map(pairs),
    ensures
        has_tempo_map(pairs.push(pair)),
{
    lemma_contains_kind_push(pairs, pair, EventKind::Meta(MetaEvent::Tempo));
    lemma_contains_kind_push(pairs, pair, EventKind::Meta(MetaEvent::TimeSignature));
    lemma_contains_kind_push(pairs, pair, EventKind::Meta(MetaEvent::KeySignature));
}

/// A final, well-formed track ends with the three bytes of an end of track, whose
/// payload is empty.
pub proof fn lemma_final_pair(track: MTrk)
    requires
        track.well_formed(),
        track.is_finalized(),
    ensures
        track@.last().1.data@ == seq![0xFFu8, 0x2Fu8, 0x00u8],
{
    let last = track@[track@.len() - 1];
    assert(last.1.well_formed());
    assert(last.1.data@ =~= seq![0xFFu8, 0x2Fu8, 0x00u8]);
}

/// Where a track stands in its life.
#[derive(Debug, Copy, Clone, PartialEq, Eq, Structural)]
pub enum TrackState {
    /// Nothing was appended yet.
    Empty,
    /// Pairs were appended, none of them an end of track.
    Accumulating,
    /// The last pair is the end of track; nothing more can be appended.
    Finalized,
}

/// The place of a track in a file, which decides what it may hold.
#[derive(Debug, Copy, Clone, PartialEq, Eq, Structural)]
pub enum TrackRole {
    /// The single track of a format 0 file.
    Format0,
    /// The first track of a format 1 file.
    GlobalTempo,
    /// Any later track of a format 1 file.
    Format1,
    /// A track of a format 2 file.
    Format2,
}

impl TrackRole {
    /// The kinds of event that may stand before the end of a track of this role.
    ///
    /// A format 0 or format 2 track takes every kind. The global tempo track
    /// takes timing meta events and nothing else. A later format 1 track takes
    /// channel-voice events and meta events that describe the track, never a
    /// timing event. End of track stands only at the end.
    pub open spec fn allows(self, kind: EventKind) -> bool {
        match kind {
            EventKind::Midi(_) => self != TrackRole::GlobalTempo,
            EventKind::Meta(meta) => match self {
                TrackRole::GlobalTempo => meta.is_timing(),
                TrackRole::Format1 => meta.is_track_scoped(),
                _ => meta != MetaEvent::EndOfTrack,
            },
        }
    }

    /// Whether a track of this role must hold a tempo map.
    pub open spec fn spec_requires_tempo_map(self) -> bool {
        self == TrackRole::Format0 || self == TrackRole::GlobalTempo
    }

    #[verifier::when_used_as_spec(spec_requires_tempo_map)]
    pub fn requires_tempo_map(self) -> (b: bool)
        ensures
            b == self.spec_requires_tempo_map(),
    {
        match self {
            TrackRole::Format0 | TrackRole::GlobalTempo => true,
            _ => false,
        }
    }

    /// A random kind among those that the role allows. Where both families are
    /// allowed each has the same chance, and within a family every allowed kind
    /// has the same chance.
    pub fn pick_event_kind(self) -> (kind: EventKind)
        ensures
            self.allows(kind),
    {
        match self {
            TrackRole::GlobalTempo => EventKind::Meta(MetaEvent::pick_random(8, 13)),
            TrackRole::Format1 => {
                let family: i32 = uniform(0, 2);
                if family == 0 {
                    EventKind::Midi(MIDIEvent::pick_random())
                } else {
                    EventKind::Meta(MetaEvent::pick_random(0, 7))
                }
            },
            _ => {
                let family: i32 = uniform(0, 2);
                if family == 0 {
                    EventKind::Midi(MIDIEvent::pick_random())
                } else {
                    let position: i32 = uniform(0, 12);
                    EventKind::Meta(MetaEvent::inner_kind(position as u32))
                }
            },
        }
    }
}

/// A track chunk. It starts empty, grows by appended pairs, and is final once
/// an end of track was appended.
#[derive(Debug)]
pub struct MTrk {
    identifier: [u8; 4],
    chunklen: u32,
    data: Vec<(DeltaTime, Event)>,
}

impl View for MTrk {
    type V = Seq<(DeltaTime, Event)>;

    /// The pairs of the track body, in order.
    closed spec fn view(&self) -> Seq<(DeltaTime, Event)> {
        self.data@
    }
}

impl MTrk {
    /// The chunk identifier that the track carries.
    pub closed spec fn tag(&self) -> Seq<u8> {
        self.identifier@
    }

    /// The chunk length that the track carries.
    pub closed spec fn chunk_length(&self) -> u32 {
        self.chunklen
    }

    /// The identifier is `MTrk`, the chunk length is the byte count of the body,
    /// every delta-time and every event is well formed, and no pair before the
    /// last is an end of track.
    pub open spec fn well_formed(&self) -> bool {
        &&& self.tag() == track_tag()
        &&& self.chunk_length() == body_bytes(self@).len()
        &&& forall|i: int|
            0 <= i < self@.len() ==> (#[trigger] self@[i]).0.well_formed()
                && self@[i].1.well_formed()
        &&& forall|i: int|
            0 <= i < self@.len() - 1 ==> !(#[trigger] self@[i]).1.kind.is_end_of_track()
    }

    /// The last pair is an end of track.
    pub open spec fn is_finalized(&self) -> bool {
        self@.len() > 0 && self@.last().1.kind.is_end_of_track()
    }

    /// Where the track stands in its life.
    pub open spec fn spec_state(&self) -> TrackState {
        if self@.len() == 0 {
            TrackState::Empty
        } else if self.is_finalized() {
            TrackState::Finalized
        } else {
            TrackState::Accumulating
        }
    }

    /// The track is complete and follows the composition rule of `role`: it is
    /// well formed and final, every event before the end of track is of a kind
    /// that the role allows, and the tempo map is there where the role asks for
    /// it.
    pub open spec fn conforms(&self, role: TrackRole) -> bool {
        &&& self.well_formed()
        &&& self.is_finalized()
        &&& forall|i: int| 0 <= i < self@.len() - 1 ==> role.allows((#[trigger] self@[i]).1.kind)
        &&& role.requires_tempo_map() ==> has_tempo_map(self@)
    }

    /// The track is one that random generation produces for `role`: it conforms
    /// to the role, a tempo map that the role asks for stands at the start in the
    /// order tempo, time signature, key signature, 1 to 99 further events follow
    /// before the end of track, and every event lies in the sampled ranges.
    pub open spec fn in_sampling_ranges(&self, role: TrackRole) -> bool {
        &&& self.conforms(role)
        &&& role.requires_tempo_map() ==> {
            &&& 5 <= self@.len() <= 103
            &&& self@[0].1.kind == EventKind::Meta(MetaEvent::Tempo)
            &&& self@[1].1.kind == EventKind::Meta(MetaEvent::TimeSignature)
            &&& self@[2].1.kind == EventKind::Meta(MetaEvent::KeySignature)
        }
        &&& !role.requires_tempo_map() ==> 2 <= self@.len() <= 100
        &&& forall|i: int|
            0 <= i < self@.len() ==> (#[trigger] self@[i]).1.in_sampling_ranges()
    }

    /// The bytes of the chunk: identifier, chunk length high byte first, body.
    pub open spec fn serialized(&self) -> Seq<u8> {
        self.tag() + be_u32(self.chunk_length()) + body_bytes(self@)
    }

    /// An empty track.
    pub fn new() -> (track: MTrk)
        ensures
            track@ == Seq::<(DeltaTime, Event)>::empty(),
            track.chunk_length() == 0,
            track.well_formed(),
            track.spec_state() == TrackState::Empty,
    {
        let track = MTrk { identifier: [0x4D, 0x54, 0x72, 0x6B], chunklen: 0, data: Vec::new() };
        assert(track.identifier@ =~= track_tag());
        track
    }

    /// The chunk identifier.
    pub fn identifier(&self) -> (tag: [u8; 4])
        ensures
            tag@ == self.tag(),
    {
        self.identifier
    }

    /// The chunk length.
    pub fn chunklen(&self) -> (length: u32)
        ensures
            length == self.chunk_length(),
    {
        self.chunklen
    }

    /// The pairs of the track body, in order.
    pub fn data(&self) -> (pairs: &Vec<(DeltaTime, Event)>)
        ensures
            pairs@ == self@,
    {
        &self.data
    }

    /// Where the track stands in its life.
    #[verifier::when_used_as_spec(spec_state)]
    pub fn state(&self) -> (state: TrackState)
        ensures
            state == self.spec_state(),
    {
        let n: usize = self.data.len();
        if n == 0 {
            TrackState::Empty
        } else if self.data[n - 1].1.kind.is_end_of_track() {
            TrackState::Finalized
        } else {
            TrackState::Accumulating
        }
    }

    /// Appends one pair. Appending an end of track makes the track final.
    pub fn append(&mut self, delta: DeltaTime, event: Event)
        requires
            old(self).well_formed(),
            !old(self).is_finalized(),
            delta.well_formed(),
            event.well_formed(),
            old(self).chunk_length() + delta.data@.len() + event.data@.len() <= u32::MAX,
        ensures
            final(self)@ == old(self)@.push((delta, event)),
            final(self).chunk_length() == old(self).chunk_length() + delta.data@.len()
                + event.data@.len(),
            final(self).well_formed(),
            final(self).is_finalized() == event.kind.is_end_of_track(),
            final(self).spec_state() == (if event.kind.is_end_of_track() {
                TrackState::Finalized
            } else {
                TrackState::Accumulating
            }),
    {
        let added: usize = delta.data.len() + event.data.len();
        proof {
            lemma_body_push(self@, (delta, event));
        }
        self.chunklen = self.chunklen + added as u32;
        self.data.push((delta, event));
    }

    /// The bytes of the chunk.
    pub fn to_bytes(&self) -> (bytes: Vec<u8>)
        ensures
            bytes@ == self.serialized(),
    {
        let mut bytes: Vec<u8> = Vec::new();
        push_tag(&mut bytes, &self.identifier);
        push_be_u32(&mut bytes, self.chunklen);
        let ghost head = bytes@;
        let mut i: usize = 0;
        while i < self.data.len()
            invariant
                i <= self.data.len(),
                bytes@ == head + body_bytes(self.data@.take(i as int)),
            decreases self.data.len() - i,
        {
            push_all(&mut bytes, &self.data[i].0.data);
            push_all(&mut bytes, &self.data[i].1.data);
            proof {
                let done = self.data@.take(i as int);
                assert(self.data@.take(i + 1) =~= done.push(self.data@[i as int]));
                lemma_body_push(done, self.data@[i as int]);
                assert(bytes@ =~= head + body_bytes(self.data@.take(i + 1)));
            }
            i = i + 1;
        }
        assert(self.data@.take(i as int) =~= self.data@);
        bytes
    }

    /// A random complete track of the given role.
    ///
    /// Where the role asks for a tempo map the track opens with a tempo, a time
    /// signature and a key signature event. Then come 1 to 99 events of random
    /// kinds that the role allows, and the end of track. Every event, the end of
    /// track too, follows a random delta-time of its own.
    pub fn generate(role: TrackRole) -> (track: MTrk)
        ensures
            track.conforms(role),
            track.in_sampling_ranges(role),
            track.spec_state() == TrackState::Finalized,
            track@.last().1.kind == EventKind::Meta(MetaEvent::EndOfTrack),
            track@.last().1.data@ == seq![0xFFu8, 0x2Fu8, 0x00u8],
            track.chunk_length() == body_bytes(track@).len(),
    {
        let mut track = MTrk::new();
        if role.requires_tempo_map() {
            let mut triad = Event::generate_mandatory_meta_events();
            let tempo = triad.remove(0);
            let time_signature = triad.remove(0);
            let key_signature = triad.remove(0);
            proof {
                lemma_event_size(tempo);
                lemma_event_size(time_signature);
                lemma_event_size(key_signature);
            }
            track.append(create_delta_time(), tempo);
            track.append(create_delta_time(), time_signature);
            track.append(create_delta_time(), key_signature);
            assert(track@[0].1.kind == EventKind::Meta(MetaEvent::Tempo));
            assert(track@[1].1.kind == EventKind::Meta(MetaEvent::TimeSignature));
            assert(track@[2].1.kind == EventKind::Meta(MetaEvent::KeySignature));
        }
        let extra: i32 = uniform(1, 100);
        let mut made: i32 = 0;
        while made < extra
            invariant
                0 <= made <= extra < 100,
                track.well_formed(),
                track@.len() == made + if role.requires_tempo_map() {
                    3int
                } else {
                    0int
                },
                role.requires_tempo_map() ==> {
                    &&& track@[0].1.kind == EventKind::Meta(MetaEvent::Tempo)
                    &&& track@[1].1.kind == EventKind::Meta(MetaEvent::TimeSignature)
                    &&& track@[2].1.kind == EventKind::Meta(MetaEvent::KeySignature)
                },
                // a pair has at most 4 bytes of delta-time and 258 of event
                track.chunk_length() <= 262 * track@.len(),
                forall|i: int| 0 <= i < track@.len() ==> role.allows((#[trigger] track@[i]).1.kind),
                forall|i: int|
                    0 <= i < track@.len() ==> (#[trigger] track@[i]).1.in_sampling_ranges(),
                role.requires_tempo_map() ==> has_tempo_map(track@),
            decreases extra - made,
        {
            let kind = role.pick_event_kind();
            let event = Event::new(kind);
            let delta = create_delta_time();
            proof {
                lemma_event_size(event);
                if track@.len() > 0 {
                    assert(role.allows(track@[track@.len() - 1].1.kind));
                }
                if role.requires_tempo_map() {
                    lemma_keeps_tempo_map(track@, (delta, event));
                }
            }
            track.append(delta, event);
            made = made + 1;
        }
        let end = Event::new_meta_event(MetaEvent::EndOfTrack);
        let delta = create_delta_time();
        proof {
            lemma_event_size(end);
            if track@.len() > 0 {
                assert(role.allows(track@[track@.len() - 1].1.kind));
            }
            if role.requires_tempo_map() {
                lemma_keeps_tempo_map(track@, (delta, end));
            }
        }
        track.append(delta, end);
        proof {
            lemma_final_pair(track);
        }
        track
    }

    /// A random track for a format 0 file: the tempo map, then channel-voice and
    /// meta events of any kind, then the end of track.
    pub fn new_track_format_0() -> (track: MTrk)
        ensures
            track.conforms(TrackRole::Format0),
            track.in_sampling_ranges(TrackRole::Format0),
            track@.last().1.kind == EventKind::Meta(MetaEvent::EndOfTrack),
            track@.last().1.data@ == seq![0xFFu8, 0x2Fu8, 0x00u8],
            track.chunk_length() == body_bytes(track@).len(),
    {
        MTrk::generate(TrackRole::Format0)
    }

    /// A random global tempo track, the first track of a format 1 file: the
    /// tempo map, then 1 to 99 timing meta events, then the end of track. It
    /// holds no channel-voice event.
    pub fn new_global_tempo() -> (track: MTrk)
        ensures
            track.conforms(TrackRole::GlobalTempo),
            track.in_sampling_ranges(TrackRole::GlobalTempo),
            track@.last().1.kind == EventKind::Meta(MetaEvent::EndOfTrack),
            track@.last().1.data@ == seq![0xFFu8, 0x2Fu8, 0x00u8],
            track.chunk_length() == body_bytes(track@).len(),
    {
        MTrk::generate(TrackRole::GlobalTempo)
    }

    /// A random track for the second and later places of a format 1 file:
    /// channel-voice events and meta events that describe the track, then the
    /// end of track. It holds no timing event.
    pub fn new_track_format_1() -> (track: MTrk)
        ensures
            track.conforms(TrackRole::Format1),
            track.in_sampling_ranges(TrackRole::Format1),
            track@.last().1.kind == EventKind::Meta(MetaEvent::EndOfTrack),
            track@.last().1.data@ == seq![0xFFu8, 0x2Fu8, 0x00u8],
            track.chunk_length() == body_bytes(track@).len(),
    {
        MTrk::generate(TrackRole::Format1)
    }

    /// A random track for a format 2 file: channel-voice and meta events of any
    /// kind, a tempo map of its own only by chance, then the end of track.
    pub fn new_track_format_2() -> (track: MTrk)
        ensures
            track.conforms(TrackRole::Format2),
            track.in_sampling_ranges(TrackRole::Format2),
            track@.last().1.kind == EventKind::Meta(MetaEvent::EndOfTrack),
            track@.last().1.data@ == seq![0xFFu8, 0x2Fu8, 0x00u8],
            track.chunk_length() == body_bytes(track@).len(),
    {
        MTrk::generate(TrackRole::Format2)
    }
}

} // verus!
