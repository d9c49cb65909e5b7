//! Timing session engine for a terminal speedcube timer: a scramble
//! generator honoring axis-group adjacency constraints, a start/stop/reset
//! elapsed-time state machine, an append-only solve history with pending
//! scramble navigation, a trimmed-mean "average of five" aggregator, and
//! the input-driven application state machine that coordinates them.

pub mod app;
pub mod history;
pub mod scramble;
pub mod stats;
pub mod timer;
