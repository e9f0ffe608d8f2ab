//! A ledger of medicine batches: each batch lives in one fixed-size account
//! slot, is created by its manufacturer and changes hands by signed transfers
//! that append to an inline, bounded custody history.
pub mod codec;
pub mod laws;
pub mod instruction;
pub mod processor;
pub mod state;

pub use processor::Processor;
