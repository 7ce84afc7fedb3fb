//! Contracts for assembling applications from a configuration-driven
//! constructor, a shared environment, a per-call context and commands that run
//! against any application exposing the resources they need.
//!
//! Every dispatch in this crate is a forwarding step, and its contract says so:
//! the result of running a command is the command's own [`Command::outcome`]
//! on the context and environment that the runtime holds.

pub mod app_container;
pub mod application;
pub mod command;
pub mod database;
pub mod db;
pub mod error_compatible;
pub mod resource;
pub mod runtime;
pub mod serde_compatible;
pub mod stable;

pub use app_container::{AppContainer, AppContainerBuilder};
pub use application::Application;
pub use command::Command;
pub use database::{Database, DatabaseResource, Query};
pub use db::Db;
pub use error_compatible::ErrorCompatible;
pub use resource::Resource;
pub use runtime::{BorrowedRuntime, Runtime};
pub use serde_compatible::SerdeCompatible;
pub use stable::Stable;
