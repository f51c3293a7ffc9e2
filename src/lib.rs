//! Pad-controller event router for a MIDI grid controller: decodes incoming
//! 3-byte channel messages into pad events, classifies pads into zones, and
//! drives the controller's LEDs by encoding colors back into Note-On messages.

pub mod codec;
pub mod registry;
pub mod dispatch;
pub mod endpoint;
pub mod reaction;
