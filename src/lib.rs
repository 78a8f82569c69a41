//! A hash time-locked contract engine over an explicitly passed byte store.

pub mod bytes;
pub mod digest;
pub mod error;
pub mod htlc;
pub mod record;
pub mod storage;
pub mod service;
pub mod laws;
