//! Configuration layer for a structured logging pipeline.
//!
//! A [`TracingInit`] value collects optional choices for three log sinks
//! (console, rotating file, remote server) together with a severity policy.
//! Unset fields are filled in from environment-variable values with a fixed
//! precedence (explicit wins over derived, derived wins over default), the
//! resolved configuration is turned into a plan of sinks to install, and the
//! current state can be rendered as a one-line summary at any point.

pub mod compose;
pub mod config;
pub mod laws;
pub mod resolve;
pub mod summary;
pub mod text;

pub use compose::FileSinkPlan;
pub use compose::FilterChoice;
pub use compose::InitError;
pub use compose::ServerSinkPlan;
pub use compose::SinkPlan;
pub use config::ConfigView;
pub use config::EnvSnapshot;
pub use config::EnvView;
pub use config::Level;
pub use config::Rotation;
pub use config::TracingInit;
