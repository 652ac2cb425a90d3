# Web controller

Turns phones into game controllers. A phone opens a web page from this server, gets one of
four player slots, and sends its input over a WebSocket; on Windows each slot drives a
virtual Xbox 360 controller.

The logic is a library that Verus verifies. The program around it is ordinary Rust.

## The library (`src/`)

| Module | Holds |
| --- | --- |
| `gamepad` | buttons, triggers, sticks, and the report that shows them |
| `packet` | binary input packets and their sequence numbers |
| `player` | one slot: attaching, detaching, steering, timing out |
| `server` | all slots, and what each event does to them |
| `messages`, `json`, `metrics` | text messages, JSON, counters |
| `dashboard`, `events`, `qr`, `text` | what the terminal shows |
| `setup` | setting up a virtual controller, step by step |
| `laws`, `server_laws`, `history` | what holds across operations and over time |

Points in time are nanoseconds since the server started. The library does no I/O: it takes
an event and says what is left to do. It calls `serde_json` for JSON and `qrcode` for the QR
code; the functions marked `external_body` in `json` and `qr` say what is relied on.

## The program (`app/`)

`main.rs` serves the page, the health check, the statistics and the WebSocket; `socket.rs`
runs a connection, `terminal.rs` draws the terminal, `xbox.rs` reaches the virtual
controllers, `stick.rs` shapes the sticks (floating point), `wire.rs` reads and writes the
JSON messages.

## Tests (`tests/`)

They run the compiled library, with the outside crates it calls.
