//! The logic of a server that turns phones into game controllers.

pub mod dashboard;
pub mod event_laws;
pub mod events;
pub mod gamepad;
pub mod history;
pub mod input_laws;
pub mod json;
pub mod json_laws;
pub mod laws;
pub mod messages;
pub mod metrics;
pub mod packet;
pub mod player;
pub mod qr;
pub mod screen_laws;
pub mod server;
pub mod server_laws;
pub mod setup;
pub mod slot_laws;
pub mod text;
