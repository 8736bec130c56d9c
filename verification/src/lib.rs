//! Verified core of the AWS CLI plugin for the proto version manager.

pub mod text;
pub mod platform;
pub mod failure;
pub mod download;
pub mod versions;
pub mod install;
pub mod executables;
pub mod laws;
