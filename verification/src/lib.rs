//! A streaming acoustic-event detector.
//!
//! The crate maintains a sliding window over a live stream of PCM samples and
//! cross-correlates the window against a fixed reference waveform.  Samples are
//! kept in their raw fixed-point form (`i32`, as delivered by the capture
//! device), so every score the engine produces is an exact rational number:
//! the integer dot product of window and template over the template's energy.
//! Thresholding, event emission, the bounded event queue, the display history,
//! the capture driver's state machine and the activation handshake are all
//! implemented and specified here; the platform audio interface, file reading
//! and input injection stay outside, behind plain-value boundaries.

pub mod capture;
pub mod dsp;
pub mod event;
pub mod history;
pub mod pipeline;
pub mod process;
pub mod wav;
