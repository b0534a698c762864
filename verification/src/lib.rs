//! Leveled log events and the calls that a logging backend receives for them.
//!
//! A producer builds a [`Data`] record, wraps it in the [`LoggingEvents`]
//! variant of its severity, and sends it to a [`Logging`] sink. The sink
//! decides what the backend is to receive, an [`Emission`]; handing that to
//! a logger is left to the caller.

pub mod data;
pub mod emission;
pub mod events;
pub mod logging;

pub use crate::data::{Data, DataView};
pub use crate::emission::{Emission, EmissionView, Severity};
pub use crate::events::LoggingEvents;
pub use crate::logging::Logging;
