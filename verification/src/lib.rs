//! Verified core of an STDF ingestion engine.
//!
//! The library reconstructs the cross-record relationships that the STDF
//! wire format only implies (device indices, wafer indices, test identity,
//! bin classifications, limit drift, program-section nesting, retest
//! superseding) and turns each incoming record into an ordered list of
//! relational write operations.  The record decoder, the worker threads and
//! all floating-point arithmetic live outside the library; values that the
//! host obtains as IEEE-754 numbers cross the boundary as their raw bit
//! patterns or as pre-rendered text.

pub mod actions;
pub mod dispatch;
pub mod errors;
pub mod fbits;
pub mod hexblob;
pub mod pipeline;
pub mod records;
pub mod sink;
pub mod storemod;
pub mod strings;
pub mod timefmt;
pub mod tracker;
