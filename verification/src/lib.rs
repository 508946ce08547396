//! Verified core of a timeline-based video editor.
//!
//! The editor's preview relies on an external command-line decoder driven as
//! a subprocess by a background worker. This crate holds the parts worth
//! proving: the worker's session state machine (process lifecycle, playback
//! mode, seek handling), the fixed-size raw frame protocol, the construction
//! of decoder and export command lines, the duration-probe output parser,
//! and the timeline arithmetic. Process spawning, channels and the GUI live
//! outside, in a thin unverified shell that consults this crate for every
//! decision.

pub mod decoder_cmd;
pub mod export_cmd;
pub mod frame;
pub mod numfmt;
pub mod player;
pub mod probe;
pub mod timeline;

pub use frame::DecodedFrame;
pub use player::PlaybackEnded;
pub use player::PlayerCommand;
