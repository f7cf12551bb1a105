//! A process-wide, structured, leveled logging core.
//!
//! The library routes records through a registry of sinks: every record
//! carries a severity, every sink carries a ceiling, and a record reaches
//! exactly the sinks whose ceiling admits its severity, provided the
//! logger's master ceiling admits it at all. Each sink's destination is
//! modelled as the append-only text it has received, so the exact content
//! produced by a sequence of dispatches is stated and proved here; the
//! surrounding process (streams, files, the global facade) consumes these
//! verified pieces from outside.

pub mod application;
pub mod format;
pub mod install;
pub mod registry;
pub mod severity;

pub use application::ApplicationConfig;
pub use application::ApplicationError;
pub use registry::Logger;
pub use registry::Sink;
pub use severity::Severity;
