//! Control core of a pedestrian-annotation video pipeline.
//!
//! The crate holds the decisions of the pipeline: which stage runs next, which
//! boxes are drawn, which events are published and how the control surface
//! reacts to them. Decoding, detection, drawing and encoding are done by the
//! caller, which reports each result back as a plain value.

pub mod channel;
pub mod event;
pub mod geometry;
pub mod processor;
pub mod settings;
pub mod stream;
pub mod trace;
pub mod ui;

pub use crate::processor::VideoProcessor;
pub use crate::ui::DetectorApp;
