//! Reload state machine for a single config source.
//!
//! The source is either a plain JSON file, loaded once per generation, or an
//! executable that streams one JSON message per line. The decisions live here
//! as step functions over plain values; the runtime that performs the actions
//! (spawning, reading, watching, sending) drives them.

pub mod mode;
pub mod reader;
pub mod orchestrator;

pub use mode::Mode;
pub use reader::{LineEvent, LineReader, ReaderAction, ReaderModel};
pub use orchestrator::{Action, Event, LoadFailure, Orchestrator, OrchestratorModel, Phase};

