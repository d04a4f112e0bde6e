//! An idempotent bootstrapper that turns a web-frontend project into a
//! mobile-capable native shell application.
//!
//! The library decides; a driver acts. A [`orchestrator::Run`] walks a fixed
//! [`plan::Plan`] and tells its driver, one [`orchestrator::Request`] at a
//! time, which path to probe, which program to start and which artifact to
//! write. The driver answers with a [`orchestrator::Reply`]. Nothing in the
//! library touches the filesystem or starts a process, so every decision of a
//! run is a function of the plan, the project context and the replies.

pub mod artifact;
pub mod cli;
pub mod context;
pub mod laws;
pub mod log;
pub mod manifest;
pub mod model;
pub mod orchestrator;
pub mod plan;
pub mod runner;
pub mod world;
