//! An `object_store` adapter over OpenDAL: the decisions it makes on
//! paths, byte ranges, errors, listings and writes, with their contracts.

pub mod error;
pub mod path;
pub mod range;
pub mod meta;
pub mod write;
pub mod listing;
pub mod store;
