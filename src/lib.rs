//! Decoding, validation and indexing of fixed-layout price-oracle accounts.
pub mod bytes;
pub mod pc;
pub mod integrity;
pub mod walker;
pub mod writer;
pub mod registry;
