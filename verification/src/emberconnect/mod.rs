//! EmberConnect dongle backend: the pure parts. EmberConnect is a WiFi
//! dongle that plugs into an embroidery machine's USB port and emulates a
//! memory stick; sending a design means HTTP-uploading it to the dongle.
pub mod backend;
pub mod client;
pub mod models;
pub mod tokens;
pub mod upload;
