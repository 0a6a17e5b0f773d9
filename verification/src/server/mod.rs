//! The decisions behind the localhost HTTP API that Ember and the app's own
//! UI talk to: authentication and CORS, pairing, the upload queue, request
//! validation and structured errors.
pub mod api;
pub mod auth;
pub mod error;
pub mod jobs;
pub mod pairing;
pub mod routes;
pub mod state;
