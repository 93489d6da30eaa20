//! The state of a gamepad.

use crate::protocol::ClientMessage;
use vstd::prelude::*;

verus! {

/// How strongly the motors of a gamepad shall shake.
///
/// The large motor is the left one of a pad, the small motor the right one.
#[derive(Debug, Clone, Copy, PartialEq, Eq, Structural)]
pub struct RumbleEvent {
    pub large_motor: u8,
    pub small_motor: u8,
}

impl Default for RumbleEvent {
    fn default() -> (event: RumbleEvent)
        ensures
            event == (RumbleEvent { large_motor: 0, small_motor: 0 }),
    {
        RumbleEvent { large_motor: 0, small_motor: 0 }
    }
}

/// Buttons, triggers and sticks of a gamepad.
#[derive(Debug, Clone, Copy, PartialEq, Eq, Structural)]
pub struct GamepadState {
    pub buttons: u16,
    pub left_trigger: u8,
    pub right_trigger: u8,
    pub thumb_lx: i16,
    pub thumb_ly: i16,
    pub thumb_rx: i16,
    pub thumb_ry: i16,
}

/// The state of a pad that nobody touches.
pub open spec fn at_rest() -> GamepadState {
    GamepadState {
        buttons: 0,
        left_trigger: 0,
        right_trigger: 0,
        thumb_lx: 0,
        thumb_ly: 0,
        thumb_rx: 0,
        thumb_ry: 0,
    }
}

/// The pad's state that a message carries, if it carries one.
pub open spec fn carried(msg: ClientMessage) -> Option<GamepadState> {
    match msg {
        ClientMessage::GamepadState {
            buttons,
            left_trigger,
            right_trigger,
            thumb_lx,
            thumb_ly,
            thumb_rx,
            thumb_ry,
        } => Some(
            GamepadState {
                buttons,
                left_trigger,
                right_trigger,
                thumb_lx,
                thumb_ly,
                thumb_rx,
                thumb_ry,
            },
        ),
        _ => None,
    }
}

/// A message carries a pad's state where it is one, field by field; no other message does.
pub proof fn lemma_carried_fields(
    buttons: u16,
    left_trigger: u8,
    right_trigger: u8,
    thumb_lx: i16,
    thumb_ly: i16,
    thumb_rx: i16,
    thumb_ry: i16,
    other: ClientMessage,
)
    requires
        other is AuthRequest || other is Heartbeat || other is Disconnect,
    ensures
        carried(
            ClientMessage::GamepadState {
                buttons,
                left_trigger,
                right_trigger,
                thumb_lx,
                thumb_ly,
                thumb_rx,
                thumb_ry,
            },
        ) == Some(
            GamepadState {
                buttons,
                left_trigger,
                right_trigger,
                thumb_lx,
                thumb_ly,
                thumb_rx,
                thumb_ry,
            },
        ),
        carried(other) is None,
{
}

impl Default for GamepadState {
    fn default() -> (state: GamepadState)
        ensures
            state == at_rest(),
            state.buttons == 0 && state.left_trigger == 0 && state.right_trigger == 0,
            state.thumb_lx == 0 && state.thumb_ly == 0,
            state.thumb_rx == 0 && state.thumb_ry == 0,
    {
        GamepadState {
            buttons: 0,
            left_trigger: 0,
            right_trigger: 0,
            thumb_lx: 0,
            thumb_ly: 0,
            thumb_rx: 0,
            thumb_ry: 0,
        }
    }
}

impl GamepadState {
    /// The state that a client message carries; nothing for any other message.
    pub fn from_client_message(msg: &ClientMessage) -> (state: Option<GamepadState>)
        ensures
            state == carried(*msg),
            match *msg {
                ClientMessage::GamepadState {
                    buttons,
                    left_trigger,
                    right_trigger,
                    thumb_lx,
                    thumb_ly,
                    thumb_rx,
                    thumb_ry,
                } => {
                    &&& state is Some
                    &&& state->0.buttons == buttons
                    &&& state->0.left_trigger == left_trigger
                    &&& state->0.right_trigger == right_trigger
                    &&& state->0.thumb_lx == thumb_lx
                    &&& state->0.thumb_ly == thumb_ly
                    &&& state->0.thumb_rx == thumb_rx
                    &&& state->0.thumb_ry == thumb_ry
                },
                _ => state is None,
            },
    {
        match msg {
            ClientMessage::GamepadState {
                buttons,
                left_trigger,
                right_trigger,
                thumb_lx,
                thumb_ly,
                thumb_rx,
                thumb_ry,
            } => Some(
                GamepadState {
                    buttons: *buttons,
                    left_trigger: *left_trigger,
                    right_trigger: *right_trigger,
                    thumb_lx: *thumb_lx,
                    thumb_ly: *thumb_ly,
                    thumb_rx: *thumb_rx,
                    thumb_ry: *thumb_ry,
                },
            ),
            _ => None,
        }
    }

    /// Whether nobody touches the pad.
    pub fn is_zero(&self) -> (b: bool)
        ensures
            b == (*self == at_rest()),
            b == (self.buttons == 0 && self.left_trigger == 0 && self.right_trigger == 0
                && self.thumb_lx == 0 && self.thumb_ly == 0 && self.thumb_rx == 0 && self.thumb_ry
                == 0),
    {
        self.buttons == 0 && self.left_trigger == 0 && self.right_trigger == 0 && self.thumb_lx == 0
            && self.thumb_ly == 0 && self.thumb_rx == 0 && self.thumb_ry == 0
    }

    /// The state after an update: the newer one, whole.
    pub fn merge(&self, other: &GamepadState) -> (merged: GamepadState)
        ensures
            merged == *other,
    {
        GamepadState {
            buttons: other.buttons,
            left_trigger: other.left_trigger,
            right_trigger: other.right_trigger,
            thumb_lx: other.thumb_lx,
            thumb_ly: other.thumb_ly,
            thumb_rx: other.thumb_rx,
            thumb_ry: other.thumb_ry,
        }
    }
}

} // verus!
