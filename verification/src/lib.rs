//! Tick-level option and underlying quotes: columnar batches, the
//! expiration-horizon and moneyness filter, and the two binary encodings.

pub mod batch;
pub mod calendar;
pub mod codec;
pub mod filter;
pub mod ordering;
pub mod parser;
pub mod pipeline;
pub mod serialize;
pub mod text;
pub mod types;
