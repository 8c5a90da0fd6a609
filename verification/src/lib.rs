//! Verified core of the Gameup backend: the decisions and text that the
//! gateway, the auth service, the game catalogue and the media services make.

pub mod auth;
pub mod catalog;
pub mod gateway;
pub mod media;
pub mod text;
