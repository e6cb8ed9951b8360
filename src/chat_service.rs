//! Types for connecting the robot to a chat service.

pub use self::shell::{Shell, ShellInput};

pub mod shell;
