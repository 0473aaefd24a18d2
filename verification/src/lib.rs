//! A minimal power-policy library: it maps the system's power source
//! (battery or AC) to a CPU energy/performance-bias level, plans the
//! batch of hardware-tunable writes that applies that level, and
//! drives the reactive loop that keeps the policy current, as a pure
//! state machine.
//!
//! All I/O (the notification-bus subscription, the tunable-file
//! writes, logging, signals) lives outside this crate; the library
//! hands it plain values and takes plain values back.

pub mod policy;
pub mod text;
pub mod writer;
pub mod event_loop;
