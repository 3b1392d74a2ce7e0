//! The types of the protocol's commands and of its decoding errors.

use vstd::prelude::*;
use crate::json::Json;
use crate::positional::{LineRange, MouseAction};

verus! {

/// A parameter object with no members.
#[derive(Debug, Clone, Copy, PartialEq, Eq)]
pub struct EmptyStruct {}

/// The name of a client view; the unit of routing for edit commands.
#[derive(Debug, Clone, PartialEq, Eq, PartialOrd, Ord, Hash)]
pub struct ViewIdentifier(pub String);

/// A touch or mouse gesture applied to the text.
#[derive(Debug, Clone, Copy, PartialEq, Eq)]
pub enum GestureType {
    ToggleSel,
}

/// A command together with the view it is routed to. On the wire the view's
/// name stands beside the command's own `method` and `params`.
#[derive(Debug, Clone, PartialEq, Eq)]
pub struct EditCommand<T> {
    pub view_id: ViewIdentifier,
    pub cmd: T,
}

} // verus!
