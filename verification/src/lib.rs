//! Signing of macOS applications and Android packages.
//!
//! The library decides every step of a signing: which programs run with
//! which arguments, what their output means, which files are used, and when
//! a signing has failed. Its caller runs the programs and touches the files.
pub mod android;
pub mod cli;
pub mod codesign;
pub mod command;
pub mod entitlements;
pub mod macos;
pub mod options;
pub mod security;
pub mod text;
