//! Provisioning of developer tools on a workstation: the decisions and the
//! data of the installer core, verified.
pub mod config;
pub mod detect;
pub mod download;
pub mod elevation;
pub mod env;
pub mod installer;
pub mod integrity;
pub mod orchestrator;
pub mod registry;
pub mod text;
pub mod ui;
pub mod updater;
pub mod version;
