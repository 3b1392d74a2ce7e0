//! Structs whose wire form is a JSON array of their fields, in order.

use vstd::prelude::*;
use crate::json::Json;

verus! {

/// A range of lines `[start, end]`, written `[start, end]` on the wire.
#[derive(Debug, Clone, Copy, PartialEq, Eq)]
pub struct LineRange {
    pub start: u64,
    pub end: u64,
}

/// A mouse event, written `[line, column, flags]` or
/// `[line, column, flags, click_count]` on the wire.
#[derive(Debug, Clone, Copy, PartialEq, Eq)]
pub struct MouseAction {
    pub line: u64,
    pub column: u64,
    pub flags: u64,
    pub click_count: Option<u64>,
}

/// The array items that write `r`.
pub open spec fn line_range_items(r: LineRange) -> Seq<Json> {
    seq![Json::Int(r.start), Json::Int(r.end)]
}

/// The array items that write `m`: the click count comes last, when there is one.
pub open spec fn mouse_action_items(m: MouseAction) -> Seq<Json> {
    match m.click_count {
        Some(c) => seq![Json::Int(m.line), Json::Int(m.column), Json::Int(m.flags), Json::Int(c)],
        None => seq![Json::Int(m.line), Json::Int(m.column), Json::Int(m.flags)],
    }
}

/// The line range that `j` denotes: a two-element array of integers.
pub open spec fn line_range_of(j: Json) -> Option<LineRange> {
    match j {
        Json::Array(v) => if v@.len() == 2 {
            match (v@[0], v@[1]) {
                (Json::Int(start), Json::Int(end)) => Some(LineRange { start, end }),
                _ => None,
            }
        } else {
            None
        },
        _ => None,
    }
}

/// The mouse action that `j` denotes: an array of three or four integers,
/// the fourth being the click count.
pub open spec fn mouse_action_of(j: Json) -> Option<MouseAction> {
    match j {
        Json::Array(v) => if v@.len() == 3 {
            match (v@[0], v@[1], v@[2]) {
                (Json::Int(line), Json::Int(column), Json::Int(flags)) => Some(
                    MouseAction { line, column, flags, click_count: None },
                ),
                _ => None,
            }
        } else if v@.len() == 4 {
            match (v@[0], v@[1], v@[2], v@[3]) {
                (Json::Int(line), Json::Int(column), Json::Int(flags), Json::Int(c)) => Some(
                    MouseAction { line, column, flags, click_count: Some(c) },
                ),
                _ => None,
            }
        } else {
            None
        },
        _ => None,
    }
}

fn int_at(v: &Vec<Json>, i: usize) -> (r: Option<u64>)
    requires
        i < v@.len(),
    ensures
        match v@[i as int] {
            Json::Int(n) => r == Some(n),
            _ => r is None,
        },
{
    match &v[i] {
        Json::Int(n) => Some(*n),
        _ => None,
    }
}

impl LineRange {
    /// Decodes the array form; any other shape gives `None`.
    pub fn from_json(j: &Json) -> (r: Option<LineRange>)
        ensures
            r == line_range_of(*j),
    {
        match j {
            Json::Array(v) => {
                if v.len() != 2 {
                    return None;
                }
                match (int_at(v, 0), int_at(v, 1)) {
                    (Some(start), Some(end)) => Some(LineRange { start, end }),
                    _ => None,
                }
            },
            _ => None,
        }
    }

    /// Encodes as `[start, end]`; decoding the result gives `self` back.
    pub fn to_json(self) -> (r: Json)
        ensures
            r matches Json::Array(v) && v@ == line_range_items(self),
            line_range_of(r) == Some(self),
    {
        let mut v: Vec<Json> = Vec::new();
        v.push(Json::Int(self.start));
        v.push(Json::Int(self.end));
        proof {
            assert(v@ =~= seq![Json::Int(self.start), Json::Int(self.end)]);
        }
        Json::Array(v)
    }
}

impl MouseAction {
    /// Decodes the array form; any other shape or length gives `None`.
    pub fn from_json(j: &Json) -> (r: Option<MouseAction>)
        ensures
            r == mouse_action_of(*j),
    {
        match j {
            Json::Array(v) => {
                if v.len() != 3 && v.len() != 4 {
                    return None;
                }
                let click_count = if v.len() == 4 {
                    match int_at(v, 3) {
                        Some(c) => Some(c),
                        None => return None,
                    }
                } else {
                    None
                };
                match (int_at(v, 0), int_at(v, 1), int_at(v, 2)) {
                    (Some(line), Some(column), Some(flags)) => Some(
                        MouseAction { line, column, flags, click_count },
                    ),
                    _ => None,
                }
            },
            _ => None,
        }
    }

    /// Encodes as `[line, column, flags]`, followed by the click count when
    /// there is one; decoding the result gives `self` back.
    pub fn to_json(self) -> (r: Json)
        ensures
            r matches Json::Array(v) && v@ == mouse_action_items(self),
            mouse_action_of(r) == Some(self),
    {
        let mut v: Vec<Json> = Vec::new();
        v.push(Json::Int(self.line));
        v.push(Json::Int(self.column));
        v.push(Json::Int(self.flags));
        match self.click_count {
            Some(c) => {
                v.push(Json::Int(c));
                proof {
                    assert(v@ =~= seq![
                        Json::Int(self.line),
                        Json::Int(self.column),
                        Json::Int(self.flags),
                        Json::Int(c),
                    ]);
                }
            },
            None => {
                proof {
                    assert(v@ =~= seq![
                        Json::Int(self.line),
                        Json::Int(self.column),
                        Json::Int(self.flags),
                    ]);
                }
            },
        }
        Json::Array(v)
    }
}

} // verus!
