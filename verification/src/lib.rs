//! Ear-training quiz: notes and games, user identity tokens, and the
//! realtime rooms that connections join to exchange messages.

pub mod auth;
pub mod chance;
pub mod game;
pub mod json;
pub mod rooms;
pub mod routes;
pub mod text;
pub mod theory;
pub mod user;
pub mod ws;
