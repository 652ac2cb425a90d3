//! The text messages between a phone and the server.

use vstd::prelude::*;

use crate::json::{json_number, json_object, json_put, json_text, json_write, json_written, Json};

verus! {

/// The longest text message that a phone may send, in bytes.
pub const MAX_TEXT_MESSAGE: usize = 4096;

/// A message of a phone.
#[derive(Debug)]
pub enum ClientMessage {
    ButtonPress { button: String },
    ButtonRelease { button: String },
    /// A stick, and the position of the thumb stick that the touch amounts to.
    JoystickMove { stick: String, thumb: (i16, i16) },
    /// A movement of the mouse in whole pixels.
    MouseMove { dx: i32, dy: i32 },
    KeyText { text: String },
    Ping,
}

/// Tells a phone its slot.
#[derive(Debug)]
pub struct ServerWelcome {
    pub kind: String,
    pub player_id: usize,
}

/// Answers a ping.
#[derive(Debug)]
pub struct ServerPong {
    pub kind: String,
}

/// Tells a phone to vibrate.
#[derive(Debug)]
pub struct ServerRumble {
    pub kind: String,
    pub large: u8,
    pub small: u8,
}

impl ServerWelcome {
    /// The welcome for a slot.
    pub fn new(player_id: usize) -> (message: ServerWelcome)
        ensures
            message.kind@ == "welcome"@,
            message.player_id == player_id,
    {
        ServerWelcome { kind: "welcome".to_owned(), player_id }
    }
}

impl ServerPong {
    /// The answer to a ping.
    pub fn new() -> (message: ServerPong)
        ensures
            message.kind@ == "pong"@,
    {
        ServerPong { kind: "pong".to_owned() }
    }
}

impl ServerRumble {
    /// The strengths of the two motors.
    pub fn new(large: u8, small: u8) -> (message: ServerRumble)
        ensures
            message.kind@ == "rumble"@,
            message.large == large,
            message.small == small,
    {
        ServerRumble { kind: "rumble".to_owned(), large, small }
    }
}

/// The rumble message for a slot, with the connection that it goes to, if there is one.
pub fn rumble_message(target: Option<u64>, large: u8, small: u8) -> (message: Option<
    (u64, ServerRumble),
>)
    ensures
        match target {
            Some(generation) => {
                &&& message matches Some((to, rumble))
                &&& to == generation
                &&& rumble.kind@ == "rumble"@
                &&& rumble.large == large
                &&& rumble.small == small
            },
            None => message is None,
        },
{
    match target {
        Some(generation) => Some((generation, ServerRumble::new(large, small))),
        None => None,
    }
}

/// What a phone is told that finds every slot taken.
pub open spec fn full_notice(max_players: u64) -> Json {
    Json::Object(
        Map::empty().insert("type"@, Json::Text("server_full"@)).insert(
            "max_players"@,
            Json::Number(max_players),
        ),
    )
}

/// What a phone is told whose slot got no virtual controller.
pub open spec fn unavailable_notice() -> Json {
    Json::Object(Map::empty().insert("type"@, Json::Text("controller_unavailable"@)))
}

/// Writes what a phone is told that finds every slot taken.
pub fn server_full(max_players: u64) -> (text: String)
    ensures
        text@ == json_written(full_notice(max_players)),
{
    let mut notice = json_object();
    json_put(&mut notice, "type", json_text("server_full"));
    json_put(&mut notice, "max_players", json_number(max_players));
    json_write(&notice)
}

/// Writes what a phone is told whose slot got no virtual controller.
pub fn controller_unavailable() -> (text: String)
    ensures
        text@ == json_written(unavailable_notice()),
{
    let mut notice = json_object();
    json_put(&mut notice, "type", json_text("controller_unavailable"));
    json_write(&notice)
}

} // verus!
