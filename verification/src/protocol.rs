//! The messages between a client, which shows the pad, and the server.

use vstd::prelude::*;

verus! {

/// What a client sends.
#[derive(Debug, Clone, PartialEq)]
pub enum ClientMessage {
    /// Asks to be let in.
    AuthRequest { password: String },
    /// The whole state of the pad.
    GamepadState {
        buttons: u16,
        left_trigger: u8,
        right_trigger: u8,
        thumb_lx: i16,
        thumb_ly: i16,
        thumb_rx: i16,
        thumb_ry: i16,
    },
    /// A sign of life.
    Heartbeat,
    /// Takes leave.
    Disconnect { reason: String },
}

/// What the server sends.
#[derive(Debug, Clone, PartialEq)]
pub enum ServerMessage {
    /// The client is let in, under a session token.
    AuthSuccess { token: String },
    /// The client is not let in.
    AuthFailure { reason: String },
    /// The state of the pad, handed back.
    GamepadState {
        buttons: u16,
        left_trigger: u8,
        right_trigger: u8,
        thumb_lx: i16,
        thumb_ly: i16,
        thumb_rx: i16,
        thumb_ry: i16,
    },
    /// How strongly the two motors of the pad shall shake.
    Rumble { left_motor: u8, right_motor: u8 },
    /// The answer to a sign of life.
    Pong,
    /// The first message on a connection.
    Connected { controller_name: String },
}

/// What a server message says.
pub enum ServerMessageView {
    AuthSuccess { token: Seq<char> },
    AuthFailure { reason: Seq<char> },
    GamepadState {
        buttons: u16,
        left_trigger: u8,
        right_trigger: u8,
        thumb_lx: i16,
        thumb_ly: i16,
        thumb_rx: i16,
        thumb_ry: i16,
    },
    Rumble { left_motor: u8, right_motor: u8 },
    Pong,
    Connected { controller_name: Seq<char> },
}

impl View for ServerMessage {
    type V = ServerMessageView;

    open spec fn view(&self) -> ServerMessageView {
        match *self {
            ServerMessage::AuthSuccess { token } => ServerMessageView::AuthSuccess { token: token@ },
            ServerMessage::AuthFailure { reason } => ServerMessageView::AuthFailure {
                reason: reason@,
            },
            ServerMessage::GamepadState {
                buttons,
                left_trigger,
                right_trigger,
                thumb_lx,
                thumb_ly,
                thumb_rx,
                thumb_ry,
            } => ServerMessageView::GamepadState {
                buttons,
                left_trigger,
                right_trigger,
                thumb_lx,
                thumb_ly,
                thumb_rx,
                thumb_ry,
            },
            ServerMessage::Rumble { left_motor, right_motor } => ServerMessageView::Rumble {
                left_motor,
                right_motor,
            },
            ServerMessage::Pong => ServerMessageView::Pong,
            ServerMessage::Connected { controller_name } => ServerMessageView::Connected {
                controller_name: controller_name@,
            },
        }
    }
}

} // verus!
