//! Engine of a flash-and-monitor harness for microcontroller bring-up.
//!
//! A producer leaves a [`command::Command`] in a single-slot
//! [`mailbox::Mailbox`]. A [`scheduler::Scheduler`] drains the mailbox and
//! drives one [`pipeline::Pipeline`] at a time through
//! attach, flash, reset, run, telemetry capture and halt.
//!
//! The engine performs no I/O. Both machines are transition functions: they
//! hand out an [`pipeline::Action`] for the host to carry out against the
//! debug probe and take back an [`pipeline::Event`] that says how it went.
//!
//! What holds of whole runs is stated and proved in [`trace`], what holds of
//! the scheduler over time in [`history`]. [`replay`] runs a recorded
//! session without a probe.

pub mod command;
pub mod error;
pub mod history;
pub mod image;
pub mod mailbox;
pub mod pipeline;
pub mod replay;
pub mod scheduler;
pub mod telemetry;
pub mod trace;
