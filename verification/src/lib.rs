//! Client library of an error-reporting service.
//!
//! Its core is the delivery pipeline in [`transport`]: a bounded queue
//! that drops what it cannot hold, a single delivery worker, a counter of
//! what is outstanding and a shutdown handshake bounded by a timeout. The
//! pipeline makes every decision and never waits; a host with threads, an
//! async runtime or a single event loop supplies channel, lock and clock
//! and carries the decisions out. What holds of every pipeline is proved
//! in [`transport::laws`].
//!
//! Around it stand the parts of a report ([`types`], [`payload`],
//! [`body`]) and how a report is put together ([`report`], [`jvm`]), the
//! filter for exceptions not worth a report ([`exceptions`]), the
//! transport's settings ([`configuration`]) and the settings of the
//! log-forwarding agent with their file forms ([`agent`]).

pub mod agent;
pub mod body;
pub mod configuration;
pub mod exceptions;
pub mod jvm;
pub mod payload;
pub mod report;
pub mod text;
pub mod transport;
pub mod types;
