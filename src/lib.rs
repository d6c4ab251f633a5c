//! A diagnostic dispatcher that deterministically produces each of three
//! outcome channels: an unrecoverable abort, an abort raised by a failed
//! condition, and a classified, recoverable error value.

pub mod abort;
pub mod dispatcher;
pub mod error;

pub use abort::Abort;
pub use dispatcher::ErrorTriggerContract;
pub use error::Error;
