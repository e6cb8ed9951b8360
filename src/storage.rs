//! Types for persisting data beyond the execution of the program.

pub use crate::store::{Memory, ScopedStore, Store};
