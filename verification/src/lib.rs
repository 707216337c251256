//! Client-side protocol model for an agent server's event-driven API.
//!
//! The library turns raw server-sent envelopes (a `type` discriminant plus an
//! untyped JSON properties blob) into strongly typed domain events, models the
//! lifecycle of tool invocations and session status, and builds outbound
//! request bodies. Classification is total: unrecognized or malformed
//! envelopes become an explicit `Unknown` event instead of an error.

pub mod config;
pub mod event;
pub mod history;
pub mod json;
pub mod part;
pub mod request;
pub mod schema;
