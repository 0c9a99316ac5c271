//! A whole file: the header chunk and the track chunks that it announces.

use crate::header::MThd;
use crate::track::{has_channel_voice, has_tempo_map, has_tempo_map_event, MTrk, TrackRole};
use vstd::prelude::*;

verus! {

/// The role of the track at position `index` of a file of the given format: a
/// format 0 file has its single track, a format 1 file opens with the global
/// tempo track, and every track of a format 2 file stands for itself.
pub open spec fn track_role(format: u16, index: int) -> TrackRole {
    if format == 0 {
        TrackRole::Format0
    } else if format == 1 {
        if index == 0 {
            TrackRole::GlobalTempo
        } else {
            TrackRole::Format1
        }
    } else {
        TrackRole::Format2
    }
}

/// `tracks` are the tracks that `header` announces: as many as its track count
/// says, each complete and following the rule of its place.
pub open spec fn tracks_fit(header: MThd, tracks: Seq<MTrk>) -> bool {
    &&& tracks.len() == header.ntracks
    &&& forall|i: int|
        0 <= i < tracks.len() ==> (#[trigger] tracks[i]).conforms(track_role(header.format, i))
}

/// The bytes of a sequence of track chunks, in order.
pub open spec fn tracks_bytes(tracks: Seq<MTrk>) -> Seq<u8>
    decreases tracks.len(),
{
    if tracks.len() == 0 {
        Seq::empty()
    } else {
        tracks_bytes(tracks.drop_last()) + tracks.last().serialized()
    }
}

/// The tempo map of `tracks` is global: the first track holds a tempo, a time
/// signature and a key signature event and no channel-voice event, and no other
/// track holds an event of one of those three kinds.
pub open spec fn tempo_map_is_global(tracks: Seq<MTrk>) -> bool {
    &&& tracks.len() >= 2
    &&& has_tempo_map(tracks[0]@)
    &&& !has_channel_voice(tracks[0]@)
    &&& forall|i: int| 1 <= i < tracks.len() ==> !has_tempo_map_event((#[trigger] tracks[i])@)
}

/// In a format 1 file the tempo map is global.
pub proof fn lemma_format_1_tempo_map_is_global(header: MThd, tracks: Seq<MTrk>)
    requires
        header.well_formed(),
        header.format == 1,
        tracks_fit(header, tracks),
    ensures
        tempo_map_is_global(tracks),
{
    let first = tracks[0];
    assert(first.conforms(TrackRole::GlobalTempo));
    assert forall|j: int| 0 <= j < first@.len() implies !((#[trigger] first@[j]).1.kind is Midi) by {
        if j < first@.len() - 1 {
            assert(TrackRole::GlobalTempo.allows(first@[j].1.kind));
        }
    }
    assert forall|i: int| 1 <= i < tracks.len() implies !has_tempo_map_event(
        (#[trigger] tracks[i])@,
    ) by {
        let track = tracks[i];
        assert(track.conforms(TrackRole::Format1));
        assert forall|j: int| 0 <= j < track@.len() implies !(#[trigger] track@[j]).1.kind.is_tempo_map() by {
            if j < track@.len() - 1 {
                assert(TrackRole::Format1.allows(track@[j].1.kind));
            }
        }
    }
}

/// The tracks that `header` announces, with random content.
///
/// A format 0 header gets its single track. A format 1 header gets the global
/// tempo track, then a track of notes for every further place. A format 2 header
/// gets an independent track for every place.
pub fn generate_tracks(header: &MThd) -> (tracks: Vec<MTrk>)
    requires
        header.well_formed(),
    ensures
        tracks@.len() == header.ntracks,
        tracks_fit(*header, tracks@),
        header.format == 1 ==> tempo_map_is_global(tracks@),
{
    let mut tracks: Vec<MTrk> = Vec::new();
    if header.format == 0 {
        tracks.push(MTrk::new_track_format_0());
    } else if header.format == 1 {
        tracks.push(MTrk::new_global_tempo());
        let mut made: u16 = 1;
        while made < header.ntracks
            invariant
                header.format == 1,
                1 <= made <= header.ntracks,
                tracks.len() == made,
                forall|i: int|
                    0 <= i < tracks.len() ==> (#[trigger] tracks[i]).conforms(
                        track_role(header.format, i),
                    ),
            decreases header.ntracks - made,
        {
            tracks.push(MTrk::new_track_format_1());
            made = made + 1;
        }
    } else {
        let mut made: u16 = 0;
        while made < header.ntracks
            invariant
                header.format == 2,
                made <= header.ntracks,
                tracks.len() == made,
                forall|i: int|
                    0 <= i < tracks.len() ==> (#[trigger] tracks[i]).conforms(
                        track_role(header.format, i),
                    ),
            decreases header.ntracks - made,
        {
            tracks.push(MTrk::new_track_format_2());
            made = made + 1;
        }
    }
    proof {
        if header.format == 1 {
            lemma_format_1_tempo_map_is_global(*header, tracks@);
        }
    }
    tracks
}

/// A file: its header chunk and its track chunks.
#[derive(Debug)]
pub struct MidiFile {
    pub header: MThd,
    pub tracks: Vec<MTrk>,
}

impl MidiFile {
    /// The header is well formed and the tracks are those it announces.
    pub open spec fn well_formed(&self) -> bool {
        &&& self.header.well_formed()
        &&& tracks_fit(self.header, self.tracks@)
    }

    /// The bytes of the file: the header chunk, then the track chunks in order.
    pub open spec fn serialized(&self) -> Seq<u8> {
        self.header.serialized() + tracks_bytes(self.tracks@)
    }

    /// A file with the given header and random tracks.
    pub fn with_header(header: MThd) -> (file: MidiFile)
        requires
            header.well_formed(),
        ensures
            file.header == header,
            file.well_formed(),
            header.format == 1 ==> tempo_map_is_global(file.tracks@),
    {
        let tracks = generate_tracks(&header);
        MidiFile { header, tracks }
    }

    /// A file with a random header and random tracks.
    pub fn generate() -> (file: MidiFile)
        ensures
            file.well_formed(),
            file.header.in_sampling_ranges(),
            file.header.format == 1 ==> tempo_map_is_global(file.tracks@),
    {
        MidiFile::with_header(MThd::new())
    }

    /// The bytes of the file.
    pub fn to_bytes(&self) -> (bytes: Vec<u8>)
        ensures
            bytes@ == self.serialized(),
    {
        let mut bytes = self.header.to_bytes();
        let mut i: usize = 0;
        while i < self.tracks.len()
            invariant
                i <= self.tracks.len(),
                bytes@ == self.header.serialized() + tracks_bytes(self.tracks@.take(i as int)),
            decreases self.tracks.len() - i,
        {
            let mut chunk = self.tracks[i].to_bytes();
            proof {
                let done = self.tracks@.take(i as int);
                assert(self.tracks@.take(i + 1).drop_last() =~= done);
            }
            bytes.append(&mut chunk);
            i = i + 1;
        }
        assert(self.tracks@.take(i as int) =~= self.tracks@);
        bytes
    }
}

} // verus!
