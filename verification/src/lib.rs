//! A structured, severity-tagged logging engine with pluggable time and
//! storage capabilities.
//!
//! The engine composes a severity model, a duration-humanizing formatter and
//! two capability abstractions — a time source and a storage sink — into
//! record emission and into error-handling combinators that log a failure
//! and then either recover or halt.

pub mod compact;
pub mod digits;
pub mod duration;
pub mod engine;
pub mod record;
pub mod status;
pub mod storage;
pub mod time;

pub use compact::MultiULogger;
pub use compact::ULogger;
pub use engine::Logger;
pub use engine::MultiLogger;
pub use status::StatusLevel;
pub use storage::ConsoleSink;
pub use storage::DuplicableStorage;
pub use storage::MemorySink;
pub use storage::StorageProvider;
pub use time::DuplicableTime;
pub use time::TimeProvider;
