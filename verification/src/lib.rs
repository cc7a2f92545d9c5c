//! Settings resolution, configuration assembly and lifecycle decisions for an MQTT broker.
//!
//! The settings of a deployment are resolved from named inputs (`settings`, `lookup`), the
//! configuration of the broker is built from them (`config`), and the life of the process
//! is decided step by step (`lifecycle`). Nothing here reads the environment, opens a
//! socket or starts a thread: that is left to the caller.

pub mod address;
pub mod config;
pub mod decimal;
pub mod lifecycle;
pub mod lookup;
pub mod settings;
