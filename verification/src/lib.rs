//! Core of an interactive terminal client for a chat backend.
//!
//! The verified heart of the client is the session-aware request pipeline —
//! a shared credential holder plus the formatting rules that inject the
//! credential into every outgoing call — together with the screen state
//! machine that sequences remote calls against a cooperative render/input
//! loop. Terminal drawing, raw input capture and the wire transport are
//! external collaborators: the surrounding binary performs them and feeds
//! their results back into the verified transition functions as plain values.

pub mod account_action;
pub mod app_state;
pub mod controller;
pub mod credential;
pub mod event;
pub mod interceptor;
pub mod model;
pub mod render;
pub mod scene;
pub mod screen;
pub mod server_action;
pub mod session;
pub mod sign_action;
pub mod text;
pub mod user_action;
