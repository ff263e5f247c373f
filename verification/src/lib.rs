//! Core of a minimal screen-lock authenticator: the input-grab protocol,
//! the key-event-to-character reduction pipeline, the password buffer, the
//! authentication gate, and the event-reduction state machine that ties them
//! together. Display, rendering and credential-backend I/O live outside this
//! crate and talk to it through plain values.

pub mod auth;
pub mod buffer;
pub mod grab;
pub mod keyboard;
pub mod machine;
pub mod username;
