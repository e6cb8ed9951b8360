//! Types to be imported when writing a callback.

pub use crate::config::Config;
pub use crate::handler::Action;
pub use crate::message::{IncomingMessage, OutgoingMessage, Source, Target};
pub use crate::result::Error;
pub use crate::robot::{Handle, Robot};
pub use crate::route::Route;
pub use crate::store::{Memory, ScopedStore, Store};
