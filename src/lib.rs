//! Bookkeeping for an allocation-measuring shim: the number of bytes that are
//! live and the highest number that has been live since the last reset.
pub mod model;
pub mod tracker;

pub use tracker::PeakAlloc;
