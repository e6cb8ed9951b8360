//! The error generated while the robot is running.

pub use crate::result::{Error, ErrorKind};
