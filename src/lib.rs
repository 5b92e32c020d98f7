//! A minimal ICMP echo engine: packet construction and checksumming,
//! reply validation, target selection, per-probe outcomes and the summary
//! of a run.
pub mod checksum;
pub mod packet;
pub mod probe;
pub mod resolve;
pub mod summary;
