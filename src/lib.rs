//! A recording reverse proxy's core: the exchange records, the bounded
//! history of them, the forwarding decisions, the live broadcast hub and the
//! live relay's decisions.

pub mod entry;
pub mod exchange;
pub mod forward;
pub mod history;
pub mod hub;
pub mod relay;

pub use entry::{Log, LogEntry};
