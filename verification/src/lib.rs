//! Offline dictation core: the dictation state machine, rule-based Chinese
//! punctuation restoration, model registry bookkeeping and the small decision
//! functions that drive the recording workflow.

pub mod state_machine;
pub mod text;
pub mod punctuation;
pub mod models;
pub mod settings;
pub mod hotkey;
pub mod recorder;
pub mod workflow;
