//! Passive detection of camera and microphone activity in a video call.
//!
//! The library watches the sizes and arrival times of outgoing UDP packets,
//! one stream per source port, and infers from them which port carries video,
//! which audio and which the control channel, and whether each is active.
//! Capturing the packets is left to the program that uses the library.

pub mod capture_filter;
mod clock;
pub mod custom_device;
pub mod frame;
pub mod packet_stream;
pub mod stream_analyser;
pub mod zoom_channels;
