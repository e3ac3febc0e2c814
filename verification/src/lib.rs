//! A concurrent finite-state-machine runtime core: engines that own a
//! declarative transition table, an event router that delivers addressed
//! events to named inboxes, and a timer core for periodic and one-shot
//! deferred emissions.
//!
//! Everything here is pure logic over plain values; the surrounding
//! process (threads, channels, sleeping, standard input) drives these
//! functions and performs the emissions they return.

pub mod action;
pub mod command;
pub mod config;
pub mod dispatch;
pub mod engine;
pub mod event;
pub mod router;
pub mod timer;
