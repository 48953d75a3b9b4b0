//! The verified core of a terminal music player.

pub mod action;
pub mod api;
pub mod api_laws;
pub mod app;
pub mod background;
pub mod background_laws;
pub mod key_laws;
pub mod keys;
pub mod laws;
pub mod model;
pub mod playback_laws;
pub mod queue;
pub mod queue_laws;
pub mod screen;
pub mod screen_laws;
pub mod state_laws;
pub mod text;
pub mod text_laws;
