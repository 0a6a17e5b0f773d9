//! Ember Bridge core logic: the verified part of the desktop bridge between
//! the Ember embroidery editor and WiFi embroidery machines.
pub mod brother;
pub mod config;
pub mod dongle_setup;
pub mod emberconnect;
pub mod server;
pub mod shell;
pub mod logging;
pub mod machine;
pub mod text;
