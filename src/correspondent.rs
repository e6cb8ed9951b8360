//! Who a message comes from and who it goes to.

pub use crate::message::{Source, Target};
