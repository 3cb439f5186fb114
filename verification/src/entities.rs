//! The two messages of the protocol: the move that a client asks for and the
//! position that the server announces.

use vstd::prelude::*;
use crate::text::{owned, same_text};

verus! {

/// The action tag of a move command.
pub open spec fn move_action() -> Seq<char> {
    "move"@
}

/// The action tag of a position update.
pub open spec fn update_action() -> Seq<char> {
    "update_position"@
}

/// A relative move requested by one client. The deltas are not bounded: the
/// position that results is saturated to the grid, not the delta.
#[derive(Debug)]
pub struct MoveCommand {
    pub action: String,
    pub dx: i32,
    pub dy: i32,
}

/// What a `MoveCommand` holds, as mathematical values.
pub ghost struct MoveCommandView {
    pub action: Seq<char>,
    pub dx: int,
    pub dy: int,
}

impl View for MoveCommand {
    type V = MoveCommandView;

    open spec fn view(&self) -> MoveCommandView {
        MoveCommandView { action: self.action@, dx: self.dx as int, dy: self.dy as int }
    }
}

impl MoveCommand {
    /// A command with the tag `"move"` and the given deltas.
    pub fn new(dx: i32, dy: i32) -> (r: MoveCommand)
        ensures
            r@ == (MoveCommandView { action: move_action(), dx: dx as int, dy: dy as int }),
    {
        MoveCommand { action: owned("move"), dx, dy }
    }

    /// Whether the command carries the tag `"move"`.
    pub fn is_move(&self) -> (r: bool)
        ensures
            r == (self@.action == move_action()),
    {
        same_text(self.action.as_str(), "move")
    }
}

/// The event that is broadcast: the full position of one player after a move
/// or on arrival. It carries no delta, so the order in which the updates of
/// two players arrive does not matter.
#[derive(Debug)]
pub struct PositionUpdate {
    pub action: String,
    pub username: String,
    pub x: i32,
    pub y: i32,
}

/// What a `PositionUpdate` holds, as mathematical values.
pub ghost struct PositionUpdateView {
    pub action: Seq<char>,
    pub username: Seq<char>,
    pub x: int,
    pub y: int,
}

impl View for PositionUpdate {
    type V = PositionUpdateView;

    open spec fn view(&self) -> PositionUpdateView {
        PositionUpdateView {
            action: self.action@,
            username: self.username@,
            x: self.x as int,
            y: self.y as int,
        }
    }
}

/// The update that announces `username` at `(x, y)`.
pub open spec fn update_for(username: Seq<char>, x: int, y: int) -> PositionUpdateView {
    PositionUpdateView { action: update_action(), username, x, y }
}

impl PositionUpdate {
    /// The update that announces `username` at `(x, y)`, with the tag
    /// `"update_position"`.
    pub fn new(username: &str, x: i32, y: i32) -> (r: PositionUpdate)
        ensures
            r@ == update_for(username@, x as int, y as int),
    {
        PositionUpdate { action: owned("update_position"), username: owned(username), x, y }
    }

    /// Whether the event carries the tag `"update_position"`.
    pub fn is_position_update(&self) -> (r: bool)
        ensures
            r == (self@.action == update_action()),
    {
        same_text(self.action.as_str(), "update_position")
    }

    /// A copy of the event.
    pub fn duplicate(&self) -> (r: PositionUpdate)
        ensures
            r@ == self@,
    {
        PositionUpdate {
            action: owned(self.action.as_str()),
            username: owned(self.username.as_str()),
            x: self.x,
            y: self.y,
        }
    }
}

} // verus!
