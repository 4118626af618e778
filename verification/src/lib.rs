//! A command-driven audio playback core: track descriptors resolve
//! into byte-stream plans, transport commands run through a single
//! player loop that owns the output device's state, live-radio
//! streams are demultiplexed from their interleaved ICY metadata, and
//! network backpressure is modeled by bounded and adaptive stream
//! buffers. The playlist, its table rows and the tag editor's option
//! lines are kept alongside. Every state transition is specified and
//! machine-checked; the process edges (threads, sockets, files, the
//! audio device) live outside this crate and speak to it through
//! plain values.

pub mod backend;
pub mod buffer;
pub mod component;
pub mod dur;
pub mod error;
pub mod icy;
pub mod model;
pub mod player_msg;
pub mod resolver;
pub mod song;
pub mod tageditor;
pub mod track;
