//! A buffered log aggregator. Text lines accumulate in memory and are merged
//! into a single remote object on flush: the current remote content is read,
//! the buffered lines are appended under a timestamp policy, and the result is
//! written back in full. The merge protocol, the timestamp policies and the
//! buffer discipline live here, verified; the remote store and the local
//! mirror file are the host program's side of the boundary.

pub mod clock;
pub mod codec;
pub mod errors;
pub mod logger;
pub mod mode;
pub mod store;
pub mod text;

pub use errors::LogError;
pub use logger::creation_content;
pub use logger::Logger;
pub use mode::TimestampMode;
