//! Verified core of a tray-hosted plugin launcher: discovery and validation
//! of plugin directories.
//!
//! A host runtime observes the filesystem (directory listings and metadata
//! file contents), hands the observations in as plain values, and renders the
//! resulting descriptor list; everything between observation and descriptor
//! is specified and verified here.

pub mod commands;
pub mod plugins;
pub mod yaml;
