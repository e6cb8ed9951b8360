//! The first form of the shell chat service, configured by a `Config`.

pub use self::shell::Shell;

pub mod shell;
