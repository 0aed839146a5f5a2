//! Scheduled literature watch: a weekly trigger, a two-generation store that
//! tells new papers from known ones, a CSV log of the new ones, and a latch
//! that lets one notification through per activation.

pub mod clock;
pub mod text;
pub mod decimal;
pub mod error;
pub mod settings;
pub mod source;
pub mod paper;
pub mod log;
pub mod trigger;
pub mod storage;
pub mod scheduler;
pub mod crawler;
