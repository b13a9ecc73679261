//! A battery monitor's decision core.
//!
//! The library owns the state machine that decides, from successive battery
//! readings, when a user-facing notification is due and with what content:
//! a state-change notification whenever the charging state of two consecutive
//! successful readings differs, and a low-charge notification with hysteresis
//! when the charge crosses the critical threshold. Querying the battery,
//! displaying a notification and handling the interrupt that stops the loop
//! are collaborators around the library, not part of it.

pub mod laws;
pub mod monitor;
pub mod render;
pub mod snapshot;
