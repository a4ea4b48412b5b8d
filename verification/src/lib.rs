//! Orchestration core of a rate-limited crawler/mirror for a real-time
//! messaging network.
//!
//! The crate verifies the decision logic of the crawler: reference
//! classification, the rate-limit gates and their retry policy, the
//! subscription-slot eviction policy, history backfill accounting, live-event
//! fan-out filtering, watchdog resend control, and task supervision. Remote
//! I/O and durable storage are collaborators driven from outside the library;
//! their in-memory models here carry the invariants the orchestration relies
//! on.

pub mod backfill;
pub mod classify;
pub mod crawl;
pub mod error;
pub mod fanout;
pub mod gateway;
pub mod message;
pub mod mirror;
pub mod search;
pub mod slots;
pub mod store;
pub mod supervisor;
pub mod text;
pub mod types;
pub mod watchdog;
