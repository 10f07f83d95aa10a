//! Coordination core for a fleet of ephemeral remote execution instances.
//!
//! The library tracks which instances are alive, buffers outbound commands
//! per instance until the instance polls for them, funnels inbound control
//! and telemetry events through a bounded bus toward a single consumer, and
//! forgets instances that stop checking in.  Every operation is a plain
//! state transition with a contract; the asynchronous transport around it
//! (HTTP handlers, timers, channel awaits) lives outside this crate and only
//! performs what these transitions decide.

pub mod bus;
pub mod messages;
pub mod service;
