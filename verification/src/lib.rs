//! Periodic push of a metrics snapshot to a collection endpoint.
//!
//! The library decides what is pushed and when; it does no I/O. Its parts:
//!
//! - [`config`]: the push configuration. Without one nothing is pushed; with
//!   a malformed push URL nothing starts.
//! - [`snapshot`]: the gathered metric families, and their stamping with the
//!   one instant of the push.
//! - [`wire`], [`snappy`], [`encoder`]: from a snapshot to the compressed
//!   body of a push and the headers that go with it.
//! - [`response`]: how an attempt ended, and whether its client may be used
//!   again.
//! - [`scheduler`]: the state machine that a driver steps with the clock and
//!   with the outcome of each attempt; [`scheduler_proofs`] holds what is
//!   proved of it.

pub mod config;
pub mod encoder;
pub mod response;
pub mod scheduler;
pub mod scheduler_proofs;
pub mod snappy;
pub mod snapshot;
pub mod wire;

pub use crate::config::{start_metrics_push_task, ConfigError, MetricsConfig, PushTask};
pub use crate::encoder::{encode, EncodeError, PushPayload};
pub use crate::response::{classify_response, PushFailure};
pub use crate::scheduler::{Action, Phase, PushScheduler};
