//! Commands routed to a view: the view's name is written into the same
//! object as the command's own method and parameters.

use vstd::prelude::*;
use crate::json::{Json, lookup, is_empty_container, push_member, take_member};
use crate::fields::{view_field, str_field, get_view, get_str};
use crate::protocol::{EditCommand, ViewIdentifier};
use crate::edit::{
    EditNotification, EditRequest, edit_notification_of, edit_request_of, is_edit_notification_method,
    is_edit_request_method, edit_notification_name, edit_request_name, edit_notification_params_are,
    edit_request_params_are,
};

verus! {

/// Parameters as an inner command reads them: an empty object or an empty
/// array counts as no parameters at all.
pub open spec fn normalized(p: Option<Json>) -> Option<Json> {
    match p {
        Some(j) => if is_empty_container(j) {
            None
        } else {
            Some(j)
        },
        None => None,
    }
}

/// The parts of a view-scoped command object: its view, its inner method,
/// and its inner parameters after normalization.
pub open spec fn scoped_parts(j: Json) -> Option<(ViewIdentifier, String, Option<Json>)> {
    match j {
        Json::Object(fs) => match (view_field(fs@, "view_id"@), str_field(fs@, "method"@)) {
            (Some(v), Some(m)) => Some((v, m, normalized(lookup(fs@, "params"@)))),
            _ => None,
        },
        _ => None,
    }
}

/// Whether `r` is exactly the object `{"view_id": view_id, "method": method,
/// "params": params}`, in that order, with `params` left out when absent.
pub open spec fn scoped_shape(r: Json, view_id: ViewIdentifier, method: Seq<char>, params: Option<Json>) -> bool {
    match r {
        Json::Object(fs) => fs@.len() == (if params is Some {
            3int
        } else {
            2int
        }) && fs@[0].0@ == "view_id"@ && fs@[0].1 == Json::Str(view_id.0) && fs@[1].0@ == "method"@
            && (match fs@[1].1 {
            Json::Str(s) => s@ == method,
            _ => false,
        }) && (match params {
            Some(p) => fs@[2].0@ == "params"@ && fs@[2].1 == p,
            None => true,
        }),
        _ => false,
    }
}

/// The `params` member of a view-scoped object as written: its third member.
pub open spec fn scoped_params(r: Json) -> Option<Json> {
    match r {
        Json::Object(fs) => if fs@.len() == 3 {
            Some(fs@[2].1)
        } else {
            None
        },
        _ => None,
    }
}

/// Drops parameters that are an empty object or an empty array.
pub fn normalize(p: Option<Json>) -> (r: Option<Json>)
    ensures
        r == normalized(p),
{
    match p {
        Some(j) => {
            let empty = match &j {
                Json::Object(fs) => fs.len() == 0,
                Json::Array(v) => v.len() == 0,
                _ => false,
            };
            if empty {
                None
            } else {
                Some(j)
            }
        },
        None => None,
    }
}

/// Splits a view-scoped command object into its parts. An object without a
/// string `view_id` or without a string `method`, or a value that is no
/// object, is handed back unchanged.
pub fn split_scoped(j: Json) -> (r: Result<(ViewIdentifier, String, Option<Json>), Json>)
    ensures
        match scoped_parts(j) {
            Some(parts) => r == Ok::<(ViewIdentifier, String, Option<Json>), Json>(parts),
            None => r == Err::<(ViewIdentifier, String, Option<Json>), Json>(j),
        },
{
    let (v, m) = match &j {
        Json::Object(fs) => (get_view(fs, "view_id"), get_str(fs, "method")),
        _ => (None, None),
    };
    match (v, m) {
        (Some(v), Some(m)) => match j {
            Json::Object(mut fs) => {
                let p = take_member(&mut fs, "params");
                Ok((v, m, normalize(p)))
            },
            other => Err(other),
        },
        _ => Err(j),
    }
}

/// Writes a view-scoped command object: `view_id`, then `method`, then
/// `params` when there are any.
pub fn merge_scoped(view_id: ViewIdentifier, method: String, params: Option<Json>) -> (r: Json)
    requires
        params matches Some(j) ==> !is_empty_container(j),
    ensures
        scoped_shape(r, view_id, method@, params),
        r matches Json::Object(fs) && fs@[1].1 == Json::Str(method),
        scoped_parts(r) == Some((view_id, method, params)),
{
    let ghost v0 = view_id;
    let mut fs: Vec<(String, Json)> = Vec::new();
    push_member(&mut fs, "view_id", Json::Str(view_id.0));
    push_member(&mut fs, "method", Json::Str(method));
    match params {
        Some(p) => push_member(&mut fs, "params", p),
        None => {},
    }
    proof {
        reveal_strlit("view_id");
        reveal_strlit("method");
        reveal_strlit("params");
        assert("method"@.len() != "view_id"@.len());
        assert("params"@.len() != "view_id"@.len());
        assert("params"@[0] != "method"@[0]);
        assert(ViewIdentifier(v0.0) == v0);
    }
    Json::Object(fs)
}

impl EditCommand<EditNotification> {
    /// Writes the command in its view-scoped form; reading it back gives the
    /// same view and command.
    pub fn into_json(self) -> (r: Json)
        ensures
            scoped_shape(r, self.view_id, edit_notification_name(self.cmd), scoped_params(r)),
            edit_notification_params_are(self.cmd, scoped_params(r)),
            scoped_parts(r) matches Some((v, m, p)) && v == self.view_id
                && is_edit_notification_method(m@) && edit_notification_of(m@, p) == Some(self.cmd),
    {
        let EditCommand { view_id, cmd } = self;
        let (m, p) = cmd.into_parts();
        merge_scoped(view_id, m, p)
    }
}

impl EditCommand<EditRequest> {
    /// Writes the command in its view-scoped form; reading it back gives the
    /// same view and command.
    pub fn into_json(self) -> (r: Json)
        ensures
            scoped_shape(r, self.view_id, edit_request_name(self.cmd), scoped_params(r)),
            edit_request_params_are(self.cmd, scoped_params(r)),
            scoped_parts(r) matches Some((v, m, p)) && v == self.view_id
                && is_edit_request_method(m@) && edit_request_of(m@, p) == Some(self.cmd),
    {
        let EditCommand { view_id, cmd } = self;
        let (m, p) = cmd.into_parts();
        merge_scoped(view_id, m, p)
    }
}

/// An edit command object reads the same whether its `params` member is
/// absent, an empty object, or an empty array: two objects that agree on
/// every other member, one without `params` and one whose `params` is empty,
/// split into equal parts.
pub proof fn lemma_empty_params_normalized(fa: Vec<(String, Json)>, fb: Vec<(String, Json)>)
    requires
        forall|k: Seq<char>| k != "params"@ ==> #[trigger] lookup(fa@, k) == lookup(fb@, k),
        lookup(fa@, "params"@) is None,
        lookup(fb@, "params"@) matches Some(e) && is_empty_container(e),
    ensures
        scoped_parts(Json::Object(fa)) == scoped_parts(Json::Object(fb)),
{
    reveal_strlit("params");
    reveal_strlit("view_id");
    reveal_strlit("method");
    assert("view_id"@.len() != "params"@.len());
    assert("method"@[0] != "params"@[0]);
}

} // verus!
