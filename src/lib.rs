//! A fixed-layout token account record, the strategies that read and write
//! its byte form, and the instruction handlers built on them.
pub mod offsets;
pub mod layout;
pub mod backends;
pub mod error;
pub mod instruction;
pub mod codec;
pub mod processor;
pub mod laws;
pub mod fixture;
