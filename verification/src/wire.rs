//! The inbound message of the protocol: the JSON text of a text frame read
//! as a move command. Text that is no such command is no error of the
//! session: the caller drops it and goes on.

use vstd::prelude::*;
use crate::entities::{MoveCommand, MoveCommandView};
use crate::json::{integer_member_within, json_document, json_integer, json_members, json_text, parse_json, text_member, JsonMember};

verus! {

/// The command made of the three members of an inbound message, where all
/// three are there and both deltas fit in 32 bits.
pub open spec fn assembled_move(action: Option<Seq<char>>, dx: Option<int>, dy: Option<int>) -> Option<
    MoveCommandView,
> {
    match (action, dx, dy) {
        (Some(action), Some(dx), Some(dy)) => if i32::MIN <= dx <= i32::MAX && i32::MIN <= dy
            <= i32::MAX {
            Some(MoveCommandView { action, dx, dy })
        } else {
            None
        },
        _ => None,
    }
}

/// The command that a JSON value with the members `members` stands for: its
/// `action` is a string, its `dx` and `dy` are integers of 32 bits. Other
/// members are passed over.
pub open spec fn move_of(members: Map<Seq<char>, JsonMember>) -> Option<MoveCommandView> {
    assembled_move(
        text_member(members, "action"@),
        integer_member_within(members, "dx"@, i64::MIN as int, i64::MAX as int),
        integer_member_within(members, "dy"@, i64::MIN as int, i64::MAX as int),
    )
}

/// The command that the text of an inbound frame stands for, `None` where
/// it is no JSON or no command.
pub open spec fn decoded_move(text: Seq<char>) -> Option<MoveCommandView> {
    match json_document(text) {
        Some(members) => move_of(members),
        None => None,
    }
}

/// An `i64` as an `i32`, where it fits.
fn narrow(n: i64) -> (r: Option<i32>)
    ensures
        r is Some <==> i32::MIN <= n <= i32::MAX,
        r matches Some(m) ==> m as int == n as int,
{
    if n < -2147483648 || n > 2147483647 {
        None
    } else {
        Some(n as i32)
    }
}

/// Puts a command together from the three members as they were read.
pub fn assemble_move(action: Option<String>, dx: Option<i64>, dy: Option<i64>) -> (r: Option<
    MoveCommand,
>)
    ensures
        match r {
            Some(cmd) => Some(cmd@),
            None => None,
        } == assembled_move(
            match action {
                Some(a) => Some(a@),
                None => None,
            },
            match dx {
                Some(n) => Some(n as int),
                None => None,
            },
            match dy {
                Some(n) => Some(n as int),
                None => None,
            },
        ),
{
    let action = match action {
        Some(action) => action,
        None => {
            return None;
        },
    };
    let dx = match dx {
        Some(n) => n,
        None => {
            return None;
        },
    };
    let dy = match dy {
        Some(n) => n,
        None => {
            return None;
        },
    };
    match (narrow(dx), narrow(dy)) {
        (Some(dx), Some(dy)) => Some(MoveCommand { action, dx, dy }),
        _ => None,
    }
}

/// Reads a command out of a parsed JSON value.
pub fn move_from_json(value: &serde_json::Value) -> (r: Option<MoveCommand>)
    ensures
        match r {
            Some(cmd) => Some(cmd@),
            None => None,
        } == move_of(json_members(*value)),
{
    let action = json_text(value, "action");
    let dx = json_integer(value, "dx");
    let dy = json_integer(value, "dy");
    assemble_move(action, dx, dy)
}

/// Decodes the text of an inbound frame.
pub fn decode_move(text: &str) -> (r: Option<MoveCommand>)
    ensures
        match r {
            Some(cmd) => Some(cmd@),
            None => None,
        } == decoded_move(text@),
{
    match parse_json(text) {
        Some(value) => move_from_json(&value),
        None => None,
    }
}

} // verus!
