//! Core of a terminal download manager: per-task progress state, terminal
//! outcomes, the resolver that drives one download attempt, and the handles
//! through which a front end submits, observes and controls tasks.
pub mod result;
pub mod text;
pub mod naming;
pub mod address;
pub mod header;
pub mod state;
pub mod task;
pub mod resolve;
pub mod channel;
pub mod finish;
pub mod listener;
pub mod sender;
pub mod lists;
pub mod input;
