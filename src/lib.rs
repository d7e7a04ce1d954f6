//! Control logic of a bin that transcribes audio and injects the text as
//! closed captions into the video, switching between a bypass and a
//! captioning topology while data flows.
pub mod controller;
pub mod latency;
pub mod laws;
pub mod model;
pub mod settings;
pub mod topology;
