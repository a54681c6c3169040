//! A push-webhook deployment dispatcher library.
//!
//! The library receives decoded GitHub push notifications, authenticates
//! them against a per-hook shared secret (HMAC-SHA256 over the raw request
//! body), routes them to a configured hook target, queues them for a single
//! worker, and drives the fetch/checkout/rebase/script pipeline for each
//! queued job, logging every stage to a structured execution log.
//!
//! All I/O (the HTTP server, the configuration file, subprocess launching)
//! lives outside this crate; the crate holds the decisions and the text they
//! produce, with contracts.

pub mod auth;
pub mod git;
pub mod github;
pub mod hook;
pub mod log;
pub mod pipeline;
pub mod queue;
pub mod route;
pub mod text;
