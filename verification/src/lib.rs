//! Verified core of an Android application packager: manifest defaulting,
//! signing-key resolution, multi-target build coordination, subprocess
//! output capture, and a device process lifecycle monitor.

pub mod capture;
pub mod coordinator;
pub mod error;
pub mod manifest;
pub mod monitor;
pub mod package;
pub mod paths;
pub mod profile;
pub mod signing;
pub mod targets;
pub mod text;
