//! Bounded-concurrency connection dispatching for an onion service: runtime
//! tuning, a bounded FIFO queue with producer backpressure, admission through
//! a fixed pool of permits, and immediate mass-abort on cancellation.

pub mod dispatcher;
pub mod headers;
pub mod identity;
pub mod laws;
pub mod tuning;

pub use tuning::{compute_tuning, AppTuning};
pub use dispatcher::{AbortPlan, CLIENT_TIMEOUT_SECS, Dispatcher, DispatchState, Offer, Phase, Step};
pub use identity::{hsid_from_mnemonic, secret_from_seed, IdentityError};
pub use headers::{security_headers, MAX_BODY_BYTES};
