//! Brother machine backend (Innov-is / WLAN-capable models): the pure parts
//! of the "pedxml" protocol spoken by Brother's Design Database Transfer.
pub mod backend;
pub mod client;
pub mod models;
pub mod protocol;
