//! Typed reads of the members of a JSON object.

use vstd::prelude::*;
use crate::json::{Json, lookup, member, is_text, text};
use crate::protocol::{GestureType, ViewIdentifier};

verus! {

/// A required string member.
pub open spec fn str_field(fs: Seq<(String, Json)>, key: Seq<char>) -> Option<String> {
    match lookup(fs, key) {
        Some(Json::Str(s)) => Some(s),
        _ => None,
    }
}

/// A required non-negative integer member.
pub open spec fn u64_field(fs: Seq<(String, Json)>, key: Seq<char>) -> Option<u64> {
    match lookup(fs, key) {
        Some(Json::Int(n)) => Some(n),
        _ => None,
    }
}

/// A required boolean member.
pub open spec fn bool_field(fs: Seq<(String, Json)>, key: Seq<char>) -> Option<bool> {
    match lookup(fs, key) {
        Some(Json::Bool(b)) => Some(b),
        _ => None,
    }
}

/// An optional string member: absent or `null` reads as `Some(None)`.
pub open spec fn opt_str_field(fs: Seq<(String, Json)>, key: Seq<char>) -> Option<Option<String>> {
    match lookup(fs, key) {
        None => Some(None),
        Some(Json::Null) => Some(None),
        Some(Json::Str(s)) => Some(Some(s)),
        _ => None,
    }
}

/// A required view identifier member.
pub open spec fn view_field(fs: Seq<(String, Json)>, key: Seq<char>) -> Option<ViewIdentifier> {
    match str_field(fs, key) {
        Some(s) => Some(ViewIdentifier(s)),
        None => None,
    }
}

/// A required gesture member.
pub open spec fn gesture_field(fs: Seq<(String, Json)>, key: Seq<char>) -> Option<GestureType> {
    match str_field(fs, key) {
        Some(s) => if s@ == "toggle_sel"@ {
            Some(GestureType::ToggleSel)
        } else {
            None
        },
        None => None,
    }
}

pub fn get_str(fs: &Vec<(String, Json)>, key: &str) -> (r: Option<String>)
    ensures
        r == str_field(fs@, key@),
{
    match member(fs, key) {
        Some(Json::Str(s)) => Some(s.clone()),
        _ => None,
    }
}

pub fn get_u64(fs: &Vec<(String, Json)>, key: &str) -> (r: Option<u64>)
    ensures
        r == u64_field(fs@, key@),
{
    match member(fs, key) {
        Some(Json::Int(n)) => Some(*n),
        _ => None,
    }
}

pub fn get_bool(fs: &Vec<(String, Json)>, key: &str) -> (r: Option<bool>)
    ensures
        r == bool_field(fs@, key@),
{
    match member(fs, key) {
        Some(Json::Bool(b)) => Some(*b),
        _ => None,
    }
}

pub fn get_opt_str(fs: &Vec<(String, Json)>, key: &str) -> (r: Option<Option<String>>)
    ensures
        r == opt_str_field(fs@, key@),
{
    match member(fs, key) {
        None => Some(None),
        Some(Json::Null) => Some(None),
        Some(Json::Str(s)) => Some(Some(s.clone())),
        _ => None,
    }
}

pub fn get_view(fs: &Vec<(String, Json)>, key: &str) -> (r: Option<ViewIdentifier>)
    ensures
        r == view_field(fs@, key@),
{
    match get_str(fs, key) {
        Some(s) => Some(ViewIdentifier(s)),
        None => None,
    }
}

pub fn get_gesture(fs: &Vec<(String, Json)>, key: &str) -> (r: Option<GestureType>)
    ensures
        r == gesture_field(fs@, key@),
{
    match get_str(fs, key) {
        Some(s) => if is_text(&s, "toggle_sel") {
            Some(GestureType::ToggleSel)
        } else {
            None
        },
        None => None,
    }
}

/// The value that writes an optional string: the string, or `null`.
pub open spec fn opt_str_value(o: Option<String>) -> Json {
    match o {
        Some(s) => Json::Str(s),
        None => Json::Null,
    }
}

/// Whether `j` is the value that writes gesture `g`.
pub open spec fn is_gesture_value(j: Json, g: GestureType) -> bool {
    match j {
        Json::Str(s) => match g {
            GestureType::ToggleSel => s@ == "toggle_sel"@,
        },
        _ => false,
    }
}

/// The wire form of an optional string: the string, or `null`.
pub fn opt_str_json(o: Option<String>) -> (r: Json)
    ensures
        r == opt_str_value(o),
{
    match o {
        Some(s) => Json::Str(s),
        None => Json::Null,
    }
}

/// The wire form of a gesture.
pub fn gesture_json(g: GestureType) -> (r: Json)
    ensures
        is_gesture_value(r, g),
{
    match g {
        GestureType::ToggleSel => Json::Str(text("toggle_sel")),
    }
}

} // verus!
