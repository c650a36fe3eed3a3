//! A verified capture-detect-annotate loop for camera-based face marking.
//!
//! The library owns everything that can be decided without touching a
//! device: the pixel model of captured frames, the grayscale reduction, the
//! drawing of marker rectangles around detected regions, and the state
//! machine that sequences capture, detection, annotation and presentation.
//! Device work — reading a camera, running a cascade detector, showing a
//! window — is reported to the state machine as events, and the machine
//! answers with the next action to perform.

pub mod config;
pub mod frame;
pub mod pipeline;
pub mod region;
