//! Credential relay and playback supervision for a streaming receiver.
//!
//! The crate covers the three mechanisms at the heart of the system: a
//! collision-safe credential registry with its relay protocol, a supervised
//! two-stage playback pipeline with signal-escalation teardown, and a
//! correlation-keyed status-event relay.  Network transport, process
//! spawning and the chat front end live outside the library and drive it
//! through the step functions and state machines defined here.

pub mod protocol;

pub mod creds_registry;

pub mod ids;

pub mod relay;

pub mod escalator;

pub mod player_events;

pub mod server;

pub mod bot;

pub mod player;

