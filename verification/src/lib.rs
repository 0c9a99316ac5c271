//! Synthesis of structurally valid Standard MIDI Files with randomized content.
//!
//! The library builds the header chunk, variable-length delta-times, channel-voice
//! and meta events, and track chunks that follow the composition rules of the three
//! file formats. Every random draw goes through [`random`]; everything else is
//! verified code whose contracts hold for every value a draw can return.

pub mod bytes;
pub mod delta_time;
pub mod event;
pub mod file;
pub mod header;
pub mod kind;
pub mod random;
pub mod track;

pub use delta_time::{create_delta_time, DeltaTime};
pub use event::{generate_random_characters, Event};
pub use file::{generate_tracks, MidiFile};
pub use header::MThd;
pub use kind::{EventKind, MIDIEvent, MetaEvent};
pub use track::{MTrk, TrackRole, TrackState};
