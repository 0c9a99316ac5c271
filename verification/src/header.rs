//! The header chunk: file format, track count and tick division.

use crate::bytes::{be_u16, be_u32, push_be_u16, push_be_u32, push_tag};
use crate::random::uniform;
use vstd::prelude::*;

verus! {

/// Pulses per quarter note of every header with metrical timing.
pub const PULSES_PER_QUARTER_NOTE: u16 = 96;

/// Upper limit, exclusive, of the track count of a generated header.
pub const TRACK_COUNT_LIMIT: u16 = 26;

/// The chunk identifier `MThd`.
pub open spec fn header_tag() -> Seq<u8> {
    seq![0x4Du8, 0x54u8, 0x68u8, 0x64u8]
}

/// The track counts that a format admits: exactly one track in format 0, at
/// least two in format 1, at least one in format 2. No other format exists.
pub open spec fn track_count_legal(format: u16, ntracks: u16) -> bool {
    if format == 0 {
        ntracks == 1
    } else if format == 1 {
        ntracks >= 2
    } else {
        format == 2 && ntracks >= 1
    }
}

/// The frame rate byte at position `index` of the table 24, 25, 29, 30 frames
/// per second: the negated rate in two's complement.
pub open spec fn smpte_code(index: u8) -> u8 {
    if index == 0 {
        0xE8
    } else if index == 1 {
        0xE7
    } else if index == 2 {
        0xE3
    } else {
        0xE2
    }
}

/// The sub-frame resolution at position `index` of the table 4, 8, 10, 80, 100.
pub open spec fn subframe_resolution(index: u8) -> u8 {
    if index == 0 {
        4
    } else if index == 1 {
        8
    } else if index == 2 {
        10
    } else if index == 3 {
        80
    } else {
        100
    }
}

/// `b` is one of the four frame rate bytes.
pub open spec fn is_smpte_code(b: u16) -> bool {
    b == 0xE8 || b == 0xE7 || b == 0xE3 || b == 0xE2
}

/// `b` is one of the five sub-frame resolutions.
pub open spec fn is_subframe_resolution(b: u16) -> bool {
    b == 4 || b == 8 || b == 10 || b == 80 || b == 100
}

/// The tick division for timecode timing: bit 15 set, the frame rate byte in
/// bits 8 to 15, the sub-frame resolution in bits 0 to 7.
pub open spec fn timecode_bits(code: u8, resolution: u8) -> u16 {
    0x8000u16 | ((code as u16) << 8) | (resolution as u16)
}

/// The tick divisions that random generation produces: with bit 15 clear, the
/// lower 15 bits are 96; with bit 15 set, the upper byte is a frame rate byte and
/// the lower byte a sub-frame resolution.
pub open spec fn tick_division_sampled(tickdiv: u16) -> bool {
    if tickdiv & 0x8000 == 0 {
        tickdiv & 0x7FFF == 96
    } else {
        is_smpte_code(tickdiv >> 8) && is_subframe_resolution(tickdiv & 0xFF)
    }
}

/// Packing a frame rate byte and a resolution keeps both readable: the upper
/// byte of the result is the frame rate byte, which has bit 15 set already, and
/// the lower byte is the resolution.
pub proof fn lemma_timecode_fields(code: u8, resolution: u8)
    requires
        code >= 0x80,
    ensures
        timecode_bits(code, resolution) & 0x8000 == 0x8000,
        timecode_bits(code, resolution) >> 8 == code,
        timecode_bits(code, resolution) & 0xFF == resolution,
{
    let t: u16 = timecode_bits(code, resolution);
    assert(t & 0x8000 == 0x8000 && t >> 8 == code as u16 && t & 0xFF == resolution as u16)
        by (bit_vector)
        requires
            t == 0x8000u16 | ((code as u16) << 8) | (resolution as u16),
            code >= 0x80,
    ;
}

/// The tick division for timecode timing with the frame rate and the resolution
/// at the given positions of their tables.
pub fn timecode_division(rate_index: u8, resolution_index: u8) -> (tickdiv: u16)
    requires
        rate_index < 4,
        resolution_index < 5,
    ensures
        tickdiv == timecode_bits(smpte_code(rate_index), subframe_resolution(resolution_index)),
        tick_division_sampled(tickdiv),
{
    let code: u16 = match rate_index {
        0 => 0xE8,
        1 => 0xE7,
        2 => 0xE3,
        _ => 0xE2,
    };
    let resolution: u16 = match resolution_index {
        0 => 4,
        1 => 8,
        2 => 10,
        3 => 80,
        _ => 100,
    };
    let tickdiv: u16 = (1u16 << 15) | (code << 8) | resolution;
    proof {
        let c: u8 = smpte_code(rate_index);
        let r: u8 = subframe_resolution(resolution_index);
        assert(1u16 << 15 == 0x8000u16) by (bit_vector);
        lemma_timecode_fields(c, r);
        assert(tickdiv & 0x8000 != 0);
    }
    tickdiv
}

/// The header chunk of a file.
#[derive(Debug)]
pub struct MThd {
    pub identifier: [u8; 4],
    pub chunklen: u32,
    pub format: u16,
    pub ntracks: u16,
    pub tickdiv: u16,
}

impl MThd {
    /// The header is one that a file may carry: the identifier is `MThd`, the
    /// chunk length is 6, and the track count is legal for the format.
    pub open spec fn well_formed(&self) -> bool {
        &&& self.identifier@ == header_tag()
        &&& self.chunklen == 6
        &&& self.format < 3
        &&& track_count_legal(self.format, self.ntracks)
    }

    /// The header is one that random generation produces: it is well formed, has
    /// fewer than 26 tracks, and its tick division is one of those sampled.
    pub open spec fn in_sampling_ranges(&self) -> bool {
        &&& self.well_formed()
        &&& self.ntracks < TRACK_COUNT_LIMIT
        &&& tick_division_sampled(self.tickdiv)
    }

    /// The 14 bytes of the chunk: identifier, chunk length, format, track count
    /// and tick division, every number high byte first.
    pub open spec fn serialized(&self) -> Seq<u8> {
        self.identifier@ + be_u32(self.chunklen) + be_u16(self.format) + be_u16(self.ntracks)
            + be_u16(self.tickdiv)
    }

    /// The header with the given fields.
    pub fn from_parts(format: u16, ntracks: u16, tickdiv: u16) -> (header: MThd)
        requires
            track_count_legal(format, ntracks),
        ensures
            header.well_formed(),
            header.format == format,
            header.ntracks == ntracks,
            header.tickdiv == tickdiv,
    {
        let header = MThd {
            identifier: [0x4D, 0x54, 0x68, 0x64],
            chunklen: 6,
            format,
            ntracks,
            tickdiv,
        };
        assert(header.identifier@ =~= header_tag());
        header
    }

    /// A header of the given format with a random track count and a random tick
    /// division.
    ///
    /// Format 0 has one track, format 1 between 2 and 25, format 2 between 1 and
    /// 25. The timing is metrical or timecode with equal chance: metrical timing
    /// has 96 pulses per quarter note, timecode timing a frame rate and a
    /// sub-frame resolution drawn uniformly from their tables.
    pub fn with_format(format: u16) -> (header: MThd)
        requires
            format < 3,
        ensures
            header.format == format,
            header.identifier@ == header_tag(),
            header.chunklen == 6,
            track_count_legal(format, header.ntracks),
            header.ntracks < TRACK_COUNT_LIMIT,
            tick_division_sampled(header.tickdiv),
            header.well_formed(),
            header.in_sampling_ranges(),
    {
        let ntracks: u16 = if format == 0 {
            1
        } else if format == 1 {
            let drawn: i32 = uniform(2, 26);
            drawn as u16
        } else {
            let drawn: i32 = uniform(1, 26);
            drawn as u16
        };
        let timecode: i32 = uniform(0, 2);
        let tickdiv: u16 = if timecode == 0 {
            assert(96u16 & 0x8000 == 0 && 96u16 & 0x7FFF == 96) by (bit_vector);
            PULSES_PER_QUARTER_NOTE
        } else {
            let rate_index: i32 = uniform(0, 4);
            let resolution_index: i32 = uniform(0, 5);
            timecode_division(rate_index as u8, resolution_index as u8)
        };
        MThd::from_parts(format, ntracks, tickdiv)
    }

    /// A header with a random format, track count and tick division.
    pub fn new() -> (header: MThd)
        ensures
            header.identifier@ == header_tag(),
            header.chunklen == 6,
            header.format < 3,
            track_count_legal(header.format, header.ntracks),
            header.ntracks < TRACK_COUNT_LIMIT,
            tick_division_sampled(header.tickdiv),
            header.well_formed(),
            header.in_sampling_ranges(),
    {
        let format: i32 = uniform(0, 3);
        MThd::with_format(format as u16)
    }

    /// Tells whether the header is well formed.
    pub fn is_well_formed(&self) -> (ok: bool)
        ensures
            ok == self.well_formed(),
    {
        let tag_ok: bool = self.identifier[0] == 0x4D && self.identifier[1] == 0x54
            && self.identifier[2] == 0x68 && self.identifier[3] == 0x64;
        let count_ok: bool = if self.format == 0 {
            self.ntracks == 1
        } else if self.format == 1 {
            self.ntracks >= 2
        } else {
            self.format == 2 && self.ntracks >= 1
        };
        proof {
            if tag_ok {
                assert(self.identifier@ =~= header_tag());
            } else {
                assert(header_tag()[0] == 0x4D && header_tag()[1] == 0x54 && header_tag()[2]
                    == 0x68 && header_tag()[3] == 0x64);
            }
        }
        tag_ok && self.chunklen == 6 && count_ok
    }

    /// The bytes of the chunk.
    pub fn to_bytes(&self) -> (bytes: Vec<u8>)
        ensures
            bytes@ == self.serialized(),
            bytes.len() == 14,
    {
        let mut bytes: Vec<u8> = Vec::new();
        push_tag(&mut bytes, &self.identifier);
        push_be_u32(&mut bytes, self.chunklen);
        push_be_u16(&mut bytes, self.format);
        push_be_u16(&mut bytes, self.ntracks);
        push_be_u16(&mut bytes, self.tickdiv);
        bytes
    }
}

} // verus!
