//! Whole messages: the core methods, the plugin commands, the errors that
//! decoding reports, and the split between requests and notifications.

use vstd::prelude::*;
use vstd::string::StringExecFns;
use crate::json::{Json, lookup, member, is_text, text, push_member, take_member};
use crate::fields::{
    view_field, str_field, opt_str_field, get_view, get_str, get_opt_str, opt_str_json, opt_str_value,
};
use crate::protocol::{EditCommand, EmptyStruct, ViewIdentifier};
use crate::edit::{
    EditNotification, EditRequest, edit_notification_of, is_edit_notification_method,
    edit_request_of, is_edit_request_method, edit_notification_from_parts,
    edit_request_from_parts, edit_notification_index_of, edit_request_index_of,
    edit_notification_name, edit_request_name, edit_notification_params_are,
    edit_request_params_are,
};
use crate::scope::{
    scoped_parts, split_scoped, lemma_empty_params_normalized, scoped_shape, scoped_params,
};
use crate::json::is_empty_container;

verus! {

/// Whether a plugin's call expects a reply.
#[derive(Debug, Clone, Copy, PartialEq, Eq)]
pub enum RpcType {
    Notification,
    Request,
}

/// A call of a plugin whose method and parameters the core does not know;
/// the parameters are kept as they came.
#[derive(Debug, PartialEq, Eq)]
pub struct PlaceholderRpc {
    pub method: String,
    pub params: Json,
    pub rpc_type: RpcType,
}

/// A command for the plugin machinery, tagged by its `command` member.
#[derive(Debug, PartialEq, Eq)]
pub enum PluginNotification {
    Start { view_id: ViewIdentifier, plugin_name: String },
    Stop { view_id: ViewIdentifier, plugin_name: String },
    PluginRpc { view_id: ViewIdentifier, receiver: String, rpc: PlaceholderRpc },
}

/// A core message that expects no reply.
#[derive(Debug, PartialEq, Eq)]
pub enum CoreNotification {
    Edit(EditCommand<EditNotification>),
    Plugin(PluginNotification),
    CloseView { view_id: ViewIdentifier },
    Save { view_id: ViewIdentifier, file_path: String },
    SetTheme { theme_name: String },
    ClientStarted(EmptyStruct),
}

/// A core message that expects a reply.
#[derive(Debug, PartialEq, Eq)]
pub enum CoreRequest {
    Edit(EditCommand<EditRequest>),
    NewView { file_path: Option<String> },
}

/// Why a message could not be decoded. Each kind names the method; the
/// malformed kinds keep the parameters that did not fit.
#[derive(Debug, PartialEq, Eq)]
pub enum Error {
    UnknownCoreMethod(String),
    MalformedCoreParams(String, Json),
    UnknownEditMethod(String),
    MalformedEditParams(String, Json),
    MalformedPluginParams(String, Json),
}

/// A decoded message: a request keeps its correlation id.
#[derive(Debug, PartialEq, Eq)]
pub enum Message {
    Request { id: Json, request: CoreRequest },
    Notification(CoreNotification),
}

/// The parameters as an error reports them: `null` when there were none.
pub open spec fn raw_params(p: Option<Json>) -> Json {
    match p {
        Some(j) => j,
        None => Json::Null,
    }
}

pub fn raw_json(p: Option<Json>) -> (r: Json)
    ensures
        r == raw_params(p),
{
    match p {
        Some(j) => j,
        None => Json::Null,
    }
}

/// The diagnostic line for `e`. Every kind names its method; the malformed
/// kinds go on with `params_text`, the text of the parameters that did not fit.
pub open spec fn error_text(e: Error, params_text: Seq<char>) -> Seq<char> {
    match e {
        Error::UnknownCoreMethod(m) => "Error: Unknown core method '"@ + m@ + "'"@,
        Error::MalformedCoreParams(m, _) => "Error: Malformed core parameters with method '"@ + m@
            + "', parameters: "@ + params_text,
        Error::UnknownEditMethod(m) => "Error: Unknown edit method '"@ + m@ + "'"@,
        Error::MalformedEditParams(m, _) => "Error: Malformed edit parameters with method '"@ + m@
            + "', parameters: "@ + params_text,
        Error::MalformedPluginParams(m, _) => "Error: Malformed plugin parameters with method '"@
            + m@ + "', parameters: "@ + params_text,
    }
}

impl Error {
    /// The diagnostic line for this error, as `error_text` gives it;
    /// `params_text` is how the caller renders the offending parameters.
    pub fn message(&self, params_text: &str) -> (r: String)
        ensures
            r@ == error_text(*self, params_text@),
    {
        let (head, m, malformed) = match self {
            Error::UnknownCoreMethod(m) => ("Error: Unknown core method '", m, false),
            Error::MalformedCoreParams(m, _) => (
                "Error: Malformed core parameters with method '",
                m,
                true,
            ),
            Error::UnknownEditMethod(m) => ("Error: Unknown edit method '", m, false),
            Error::MalformedEditParams(m, _) => (
                "Error: Malformed edit parameters with method '",
                m,
                true,
            ),
            Error::MalformedPluginParams(m, _) => (
                "Error: Malformed plugin parameters with method '",
                m,
                true,
            ),
        };
        let mut r = text(head);
        r.append(m.as_str());
        if malformed {
            r.append("', parameters: ");
            r.append(params_text);
        } else {
            r.append("'");
        }
        r
    }

    /// The parameters that a malformed kind keeps; `None` for the unknown kinds.
    pub fn params(&self) -> (r: Option<&Json>)
        ensures
            r == (match self {
                Error::MalformedCoreParams(_, p) => Some(p),
                Error::MalformedEditParams(_, p) => Some(p),
                Error::MalformedPluginParams(_, p) => Some(p),
                _ => None::<&Json>,
            }),
    {
        match self {
            Error::MalformedCoreParams(_, p) => Some(p),
            Error::MalformedEditParams(_, p) => Some(p),
            Error::MalformedPluginParams(_, p) => Some(p),
            _ => None,
        }
    }

    /// A short description of the error's kind.
    pub fn description(&self) -> (r: &'static str)
        ensures
            r@ == (match self {
                Error::UnknownCoreMethod(_) => "Unknown core method"@,
                Error::MalformedCoreParams(_, _) => "Malformed core parameters"@,
                Error::UnknownEditMethod(_) => "Unknown edit method"@,
                Error::MalformedEditParams(_, _) => "Malformed edit parameters"@,
                Error::MalformedPluginParams(_, _) => "Malformed plugin parameters"@,
            }),
    {
        match self {
            Error::UnknownCoreMethod(_) => "Unknown core method",
            Error::MalformedCoreParams(_, _) => "Malformed core parameters",
            Error::UnknownEditMethod(_) => "Unknown edit method",
            Error::MalformedEditParams(_, _) => "Malformed edit parameters",
            Error::MalformedPluginParams(_, _) => "Malformed plugin parameters",
        }
    }

    /// The method that the error is about.
    pub fn method(&self) -> (r: &String)
        ensures
            r == (match self {
                Error::UnknownCoreMethod(m) => m,
                Error::MalformedCoreParams(m, _) => m,
                Error::UnknownEditMethod(m) => m,
                Error::MalformedEditParams(m, _) => m,
                Error::MalformedPluginParams(m, _) => m,
            }),
    {
        match self {
            Error::UnknownCoreMethod(m) => m,
            Error::MalformedCoreParams(m, _) => m,
            Error::UnknownEditMethod(m) => m,
            Error::MalformedEditParams(m, _) => m,
            Error::MalformedPluginParams(m, _) => m,
        }
    }
}

// ---------------------------------------------------------------------------
// Plugin commands
// ---------------------------------------------------------------------------

/// The reply expectation that `j` names.
pub open spec fn rpc_type_of(j: Option<Json>) -> Option<RpcType> {
    match j {
        Some(Json::Str(s)) => if s@ == "notification"@ {
            Some(RpcType::Notification)
        } else if s@ == "request"@ {
            Some(RpcType::Request)
        } else {
            None
        },
        _ => None,
    }
}

/// The plugin call that `j` denotes: an object with a string `method`, any
/// `params`, and an `rpc_type`.
pub open spec fn placeholder_of(j: Option<Json>) -> Option<PlaceholderRpc> {
    match j {
        Some(Json::Object(fs)) => match (
            str_field(fs@, "method"@),
            lookup(fs@, "params"@),
            rpc_type_of(lookup(fs@, "rpc_type"@)),
        ) {
            (Some(method), Some(params), Some(rpc_type)) => Some(
                PlaceholderRpc { method, params, rpc_type },
            ),
            _ => None,
        },
        _ => None,
    }
}

/// The plugin command that the parameters `p` of core method `method`
/// denote, or the error they give.
pub open spec fn plugin_of(method: String, p: Option<Json>) -> Result<PluginNotification, Error> {
    match p {
        Some(Json::Object(fs)) => match str_field(fs@, "command"@) {
            Some(c) => {
                let found = if c@ == "start"@ || c@ == "stop"@ {
                    match (view_field(fs@, "view_id"@), str_field(fs@, "plugin_name"@)) {
                        (Some(view_id), Some(plugin_name)) => if c@ == "start"@ {
                            Some(PluginNotification::Start { view_id, plugin_name })
                        } else {
                            Some(PluginNotification::Stop { view_id, plugin_name })
                        },
                        _ => None,
                    }
                } else if c@ == "plugin_rpc"@ {
                    match (
                        view_field(fs@, "view_id"@),
                        str_field(fs@, "receiver"@),
                        placeholder_of(lookup(fs@, "rpc"@)),
                    ) {
                        (Some(view_id), Some(receiver), Some(rpc)) => Some(
                            PluginNotification::PluginRpc { view_id, receiver, rpc },
                        ),
                        _ => None,
                    }
                } else {
                    None
                };
                match found {
                    Some(n) => Ok(n),
                    None => Err(Error::MalformedPluginParams(c, Json::Object(fs))),
                }
            },
            None => Err(Error::MalformedCoreParams(method, Json::Object(fs))),
        },
        _ => Err(Error::MalformedCoreParams(method, raw_params(p))),
    }
}

fn rpc_type_from(fs: &Vec<(String, Json)>) -> (r: Option<RpcType>)
    ensures
        r == rpc_type_of(lookup(fs@, "rpc_type"@)),
{
    match member(fs, "rpc_type") {
        Some(Json::Str(s)) => if is_text(s, "notification") {
            Some(RpcType::Notification)
        } else if is_text(s, "request") {
            Some(RpcType::Request)
        } else {
            None
        },
        _ => None,
    }
}

/// The method and reply expectation of a plugin call object whose members
/// all fit, read without taking anything out of it.
fn placeholder_shape(j: Option<&Json>) -> (r: Option<(String, RpcType)>)
    ensures
        match j {
            Some(v) => match placeholder_of(Some(*v)) {
                Some(p) => r == Some((p.method, p.rpc_type)),
                None => r is None,
            },
            None => r is None,
        },
{
    match j {
        Some(Json::Object(fs)) => {
            let has_params = member(fs, "params").is_some();
            match (get_str(fs, "method"), rpc_type_from(fs)) {
                (Some(m), Some(t)) => if has_params {
                    Some((m, t))
                } else {
                    None
                },
                _ => None,
            }
        },
        _ => None,
    }
}

/// Decodes the parameters of the core method `plugin`.
pub fn decode_plugin(method: String, params: Option<Json>) -> (r: Result<PluginNotification, Error>)
    ensures
        r == plugin_of(method, params),
{
    match params {
        Some(Json::Object(mut fs)) => {
            let c = match get_str(&fs, "command") {
                Some(c) => c,
                None => return Err(Error::MalformedCoreParams(method, Json::Object(fs))),
            };
            if is_text(&c, "start") || is_text(&c, "stop") {
                let start = is_text(&c, "start");
                match (get_view(&fs, "view_id"), get_str(&fs, "plugin_name")) {
                    (Some(view_id), Some(plugin_name)) => if start {
                        Ok(PluginNotification::Start { view_id, plugin_name })
                    } else {
                        Ok(PluginNotification::Stop { view_id, plugin_name })
                    },
                    _ => Err(Error::MalformedPluginParams(c, Json::Object(fs))),
                }
            } else if is_text(&c, "plugin_rpc") {
                let v = get_view(&fs, "view_id");
                let receiver = get_str(&fs, "receiver");
                let shape = placeholder_shape(member(&fs, "rpc"));
                match (v, receiver, shape) {
                    (Some(view_id), Some(receiver), Some((m, rpc_type))) => {
                        let rpc = take_member(&mut fs, "rpc");
                        match rpc {
                            Some(Json::Object(mut rfs)) => {
                                let p = take_member(&mut rfs, "params");
                                match p {
                                    Some(params) => Ok(
                                        PluginNotification::PluginRpc {
                                            view_id,
                                            receiver,
                                            rpc: PlaceholderRpc { method: m, params, rpc_type },
                                        },
                                    ),
                                    None => {
                                        proof {
                                            assert(false);
                                        }
                                        Err(Error::MalformedPluginParams(c, Json::Null))
                                    },
                                }
                            },
                            _ => {
                                proof {
                                    assert(false);
                                }
                                Err(Error::MalformedPluginParams(c, Json::Null))
                            },
                        }
                    },
                    _ => Err(Error::MalformedPluginParams(c, Json::Object(fs))),
                }
            } else {
                Err(Error::MalformedPluginParams(c, Json::Object(fs)))
            }
        },
        other => Err(Error::MalformedCoreParams(method, raw_json(other))),
    }
}

/// Whether member `e` is `key` holding the string `value`.
pub open spec fn text_member_is(e: (String, Json), key: Seq<char>, value: Seq<char>) -> bool {
    e.0@ == key && match e.1 {
        Json::Str(s) => s@ == value,
        _ => false,
    }
}

/// The name that writes a reply expectation.
pub open spec fn rpc_type_name(t: RpcType) -> Seq<char> {
    match t {
        RpcType::Notification => "notification"@,
        RpcType::Request => "request"@,
    }
}

/// Whether `j` is exactly the object `{"method", "params", "rpc_type"}` that
/// writes `c`.
pub open spec fn placeholder_json_is(c: PlaceholderRpc, j: Json) -> bool {
    match j {
        Json::Object(fs) => fs@.len() == 3 && fs@[0].0@ == "method"@ && fs@[0].1 == Json::Str(c.method)
            && fs@[1].0@ == "params"@ && fs@[1].1 == c.params && text_member_is(
            fs@[2],
            "rpc_type"@,
            rpc_type_name(c.rpc_type),
        ),
        _ => false,
    }
}

/// Whether `j` is exactly the object that writes plugin command `c`: its
/// `command` first, then its fields in order.
pub open spec fn plugin_json_is(c: PluginNotification, j: Json) -> bool {
    match j {
        Json::Object(fs) => match c {
            PluginNotification::Start { view_id, plugin_name } => fs@.len() == 3 && text_member_is(
                fs@[0],
                "command"@,
                "start"@,
            ) && fs@[1].0@ == "view_id"@ && fs@[1].1 == Json::Str(view_id.0) && fs@[2].0@
                == "plugin_name"@ && fs@[2].1 == Json::Str(plugin_name),
            PluginNotification::Stop { view_id, plugin_name } => fs@.len() == 3 && text_member_is(
                fs@[0],
                "command"@,
                "stop"@,
            ) && fs@[1].0@ == "view_id"@ && fs@[1].1 == Json::Str(view_id.0) && fs@[2].0@
                == "plugin_name"@ && fs@[2].1 == Json::Str(plugin_name),
            PluginNotification::PluginRpc { view_id, receiver, rpc } => fs@.len() == 4
                && text_member_is(fs@[0], "command"@, "plugin_rpc"@) && fs@[1].0@ == "view_id"@
                && fs@[1].1 == Json::Str(view_id.0) && fs@[2].0@ == "receiver"@ && fs@[2].1
                == Json::Str(receiver) && fs@[3].0@ == "rpc"@ && placeholder_json_is(rpc, fs@[3].1),
        },
        _ => false,
    }
}

impl RpcType {
    fn into_json(self) -> (r: Json)
        ensures
            rpc_type_of(Some(r)) == Some(self),
            r matches Json::Str(s) && s@ == rpc_type_name(self),
    {
        proof {
            reveal_strlit("notification");
            reveal_strlit("request");
            assert("request"@.len() != "notification"@.len());
        }
        match self {
            RpcType::Notification => Json::Str(text("notification")),
            RpcType::Request => Json::Str(text("request")),
        }
    }
}

impl PlaceholderRpc {
    /// Writes the call as an object; reading it back gives `self`.
    pub fn into_json(self) -> (r: Json)
        ensures
            placeholder_of(Some(r)) == Some(self),
            placeholder_json_is(self, r),
    {
        let PlaceholderRpc { method, params, rpc_type } = self;
        let mut fs: Vec<(String, Json)> = Vec::new();
        push_member(&mut fs, "method", Json::Str(method));
        push_member(&mut fs, "params", params);
        push_member(&mut fs, "rpc_type", rpc_type.into_json());
        proof {
            reveal_strlit("method");
            reveal_strlit("params");
            assert("params"@[0] != "method"@[0]);
            reveal_strlit("rpc_type");
            assert("rpc_type"@.len() != "method"@.len());
            assert("rpc_type"@.len() != "params"@.len());
        }
        Json::Object(fs)
    }
}

impl PluginNotification {
    /// Writes the command as an object tagged by `command`; reading it back
    /// gives `self`, whatever core method carries it.
    pub fn into_json(self) -> (r: Json)
        ensures
            forall|m: String| #[trigger] plugin_of(m, Some(r)) == Ok::<PluginNotification, Error>(self),
            plugin_json_is(self, r),
    {
        let ghost s = self;
        let mut fs: Vec<(String, Json)> = Vec::new();
        proof {
            reveal_strlit("command");
            reveal_strlit("view_id");
            assert("view_id"@[0] != "command"@[0]);
            reveal_strlit("plugin_name");
            assert("plugin_name"@.len() != "command"@.len());
            assert("plugin_name"@.len() != "view_id"@.len());
            reveal_strlit("receiver");
            assert("receiver"@.len() != "command"@.len());
            assert("receiver"@.len() != "view_id"@.len());
            assert("receiver"@.len() != "plugin_name"@.len());
            reveal_strlit("rpc");
            assert("rpc"@.len() != "command"@.len());
            assert("rpc"@.len() != "view_id"@.len());
            assert("rpc"@.len() != "plugin_name"@.len());
            assert("rpc"@.len() != "receiver"@.len());
            reveal_strlit("start");
            reveal_strlit("stop");
            assert("stop"@.len() != "start"@.len());
            reveal_strlit("plugin_rpc");
            assert("plugin_rpc"@.len() != "start"@.len());
            assert("plugin_rpc"@.len() != "stop"@.len());
        }
        match self {
            PluginNotification::Start { view_id, plugin_name } => {
                let ghost v0 = view_id;
                push_member(&mut fs, "command", Json::Str(text("start")));
                push_member(&mut fs, "view_id", Json::Str(view_id.0));
                push_member(&mut fs, "plugin_name", Json::Str(plugin_name));
                proof {
                    assert(ViewIdentifier(v0.0) == v0);
                }
            },
            PluginNotification::Stop { view_id, plugin_name } => {
                let ghost v0 = view_id;
                push_member(&mut fs, "command", Json::Str(text("stop")));
                push_member(&mut fs, "view_id", Json::Str(view_id.0));
                push_member(&mut fs, "plugin_name", Json::Str(plugin_name));
                proof {
                    assert(ViewIdentifier(v0.0) == v0);
                }
            },
            PluginNotification::PluginRpc { view_id, receiver, rpc } => {
                let ghost v0 = view_id;
                push_member(&mut fs, "command", Json::Str(text("plugin_rpc")));
                push_member(&mut fs, "view_id", Json::Str(view_id.0));
                push_member(&mut fs, "receiver", Json::Str(receiver));
                push_member(&mut fs, "rpc", rpc.into_json());
                proof {
                    assert(ViewIdentifier(v0.0) == v0);
                }
            },
        }
        Json::Object(fs)
    }
}

// ---------------------------------------------------------------------------
// Core methods
// ---------------------------------------------------------------------------

/// The position of `m` among the core notification methods, or -1.
pub open spec fn notification_index(m: Seq<char>) -> int {
    if m == "edit"@ {
        0
    } else if m == "plugin"@ {
        1
    } else if m == "close_view"@ {
        2
    } else if m == "save"@ {
        3
    } else if m == "set_theme"@ {
        4
    } else if m == "client_started"@ {
        5
    } else {
        -1
    }
}

/// The position of `m` among the core request methods, or -1.
pub open spec fn request_index(m: Seq<char>) -> int {
    if m == "edit"@ {
        0
    } else if m == "new_view"@ {
        1
    } else {
        -1
    }
}

/// The core notification that method `method` with parameters `p` denotes,
/// or the error it gives.
pub open spec fn notification_of(method: String, p: Option<Json>) -> Result<CoreNotification, Error> {
    let k = notification_index(method@);
    let malformed = Err(Error::MalformedCoreParams(method, raw_params(p)));
    if k == 0 {
        match p {
            Some(j) => match scoped_parts(j) {
                Some((view_id, m, inner)) => if !is_edit_notification_method(m@) {
                    Err(Error::UnknownEditMethod(m))
                } else {
                    match edit_notification_of(m@, inner) {
                        Some(cmd) => Ok(CoreNotification::Edit(EditCommand { view_id, cmd })),
                        None => Err(Error::MalformedEditParams(m, raw_params(inner))),
                    }
                },
                None => malformed,
            },
            None => malformed,
        }
    } else if k == 1 {
        match plugin_of(method, p) {
            Ok(n) => Ok(CoreNotification::Plugin(n)),
            Err(e) => Err(e),
        }
    } else if k == 2 {
        match p {
            Some(Json::Object(fs)) => match view_field(fs@, "view_id"@) {
                Some(view_id) => Ok(CoreNotification::CloseView { view_id }),
                None => malformed,
            },
            _ => malformed,
        }
    } else if k == 3 {
        match p {
            Some(Json::Object(fs)) => match (
                view_field(fs@, "view_id"@),
                str_field(fs@, "file_path"@),
            ) {
                (Some(view_id), Some(file_path)) => Ok(CoreNotification::Save { view_id, file_path }),
                _ => malformed,
            },
            _ => malformed,
        }
    } else if k == 4 {
        match p {
            Some(Json::Object(fs)) => match str_field(fs@, "theme_name"@) {
                Some(theme_name) => Ok(CoreNotification::SetTheme { theme_name }),
                None => malformed,
            },
            _ => malformed,
        }
    } else if k == 5 {
        match p {
            Some(Json::Object(_)) => Ok(CoreNotification::ClientStarted(EmptyStruct {})),
            _ => malformed,
        }
    } else {
        Err(Error::UnknownCoreMethod(method))
    }
}

/// The core request that method `method` with parameters `p` denotes, or
/// the error it gives.
pub open spec fn request_of(method: String, p: Option<Json>) -> Result<CoreRequest, Error> {
    let k = request_index(method@);
    let malformed = Err(Error::MalformedCoreParams(method, raw_params(p)));
    if k == 0 {
        match p {
            Some(j) => match scoped_parts(j) {
                Some((view_id, m, inner)) => if !is_edit_request_method(m@) {
                    Err(Error::UnknownEditMethod(m))
                } else {
                    match edit_request_of(m@, inner) {
                        Some(cmd) => Ok(CoreRequest::Edit(EditCommand { view_id, cmd })),
                        None => Err(Error::MalformedEditParams(m, raw_params(inner))),
                    }
                },
                None => malformed,
            },
            None => malformed,
        }
    } else if k == 1 {
        match p {
            Some(Json::Object(fs)) => match opt_str_field(fs@, "file_path"@) {
                Some(file_path) => Ok(CoreRequest::NewView { file_path }),
                None => malformed,
            },
            _ => malformed,
        }
    } else {
        Err(Error::UnknownCoreMethod(method))
    }
}

fn notification_index_of(m: &String) -> (r: i64)
    ensures
        r == notification_index(m@),
{
    if is_text(m, "edit") {
        0
    } else if is_text(m, "plugin") {
        1
    } else if is_text(m, "close_view") {
        2
    } else if is_text(m, "save") {
        3
    } else if is_text(m, "set_theme") {
        4
    } else if is_text(m, "client_started") {
        5
    } else {
        -1
    }
}

fn request_index_of(m: &String) -> (r: i64)
    ensures
        r == request_index(m@),
{
    if is_text(m, "edit") {
        0
    } else if is_text(m, "new_view") {
        1
    } else {
        -1
    }
}

/// Decodes a core notification from its method and its parameters (absent
/// when `None`).
pub fn decode_notification(method: String, params: Option<Json>) -> (r: Result<
    CoreNotification,
    Error,
>)
    ensures
        r == notification_of(method, params),
{
    let k = notification_index_of(&method);
    if k == 0 {
        match params {
            Some(j) => match split_scoped(j) {
                Ok((view_id, m, inner)) => match edit_notification_from_parts(&m, &inner) {
                    Some(cmd) => Ok(CoreNotification::Edit(EditCommand { view_id, cmd })),
                    None => if edit_notification_index_of(&m) < 0 {
                        Err(Error::UnknownEditMethod(m))
                    } else {
                        Err(Error::MalformedEditParams(m, raw_json(inner)))
                    },
                },
                Err(j) => Err(Error::MalformedCoreParams(method, j)),
            },
            None => Err(Error::MalformedCoreParams(method, Json::Null)),
        }
    } else if k == 1 {
        match decode_plugin(method, params) {
            Ok(n) => Ok(CoreNotification::Plugin(n)),
            Err(e) => Err(e),
        }
    } else if k == 2 {
        let v = match &params {
            Some(Json::Object(fs)) => get_view(fs, "view_id"),
            _ => None,
        };
        match v {
            Some(view_id) => Ok(CoreNotification::CloseView { view_id }),
            None => Err(Error::MalformedCoreParams(method, raw_json(params))),
        }
    } else if k == 3 {
        let v = match &params {
            Some(Json::Object(fs)) => (get_view(fs, "view_id"), get_str(fs, "file_path")),
            _ => (None, None),
        };
        match v {
            (Some(view_id), Some(file_path)) => Ok(CoreNotification::Save { view_id, file_path }),
            _ => Err(Error::MalformedCoreParams(method, raw_json(params))),
        }
    } else if k == 4 {
        let v = match &params {
            Some(Json::Object(fs)) => get_str(fs, "theme_name"),
            _ => None,
        };
        match v {
            Some(theme_name) => Ok(CoreNotification::SetTheme { theme_name }),
            None => Err(Error::MalformedCoreParams(method, raw_json(params))),
        }
    } else if k == 5 {
        let ok = match &params {
            Some(Json::Object(_)) => true,
            _ => false,
        };
        if ok {
            Ok(CoreNotification::ClientStarted(EmptyStruct {}))
        } else {
            Err(Error::MalformedCoreParams(method, raw_json(params)))
        }
    } else {
        Err(Error::UnknownCoreMethod(method))
    }
}

/// Decodes a core request from its method and its parameters (absent when
/// `None`).
pub fn decode_request(method: String, params: Option<Json>) -> (r: Result<CoreRequest, Error>)
    ensures
        r == request_of(method, params),
{
    let k = request_index_of(&method);
    if k == 0 {
        match params {
            Some(j) => match split_scoped(j) {
                Ok((view_id, m, inner)) => match edit_request_from_parts(&m, &inner) {
                    Some(cmd) => Ok(CoreRequest::Edit(EditCommand { view_id, cmd })),
                    None => if edit_request_index_of(&m) < 0 {
                        Err(Error::UnknownEditMethod(m))
                    } else {
                        Err(Error::MalformedEditParams(m, raw_json(inner)))
                    },
                },
                Err(j) => Err(Error::MalformedCoreParams(method, j)),
            },
            None => Err(Error::MalformedCoreParams(method, Json::Null)),
        }
    } else if k == 1 {
        let v = match &params {
            Some(Json::Object(fs)) => get_opt_str(fs, "file_path"),
            _ => None,
        };
        match v {
            Some(file_path) => Ok(CoreRequest::NewView { file_path }),
            None => Err(Error::MalformedCoreParams(method, raw_json(params))),
        }
    } else {
        Err(Error::UnknownCoreMethod(method))
    }
}

/// The method name that writes `n`.
pub open spec fn notification_name(n: CoreNotification) -> Seq<char> {
    match n {
        CoreNotification::Edit(_) => "edit"@,
        CoreNotification::Plugin(_) => "plugin"@,
        CoreNotification::CloseView { .. } => "close_view"@,
        CoreNotification::Save { .. } => "save"@,
        CoreNotification::SetTheme { .. } => "set_theme"@,
        CoreNotification::ClientStarted(_) => "client_started"@,
    }
}

/// The method name that writes `q`.
pub open spec fn request_name(q: CoreRequest) -> Seq<char> {
    match q {
        CoreRequest::Edit(_) => "edit"@,
        CoreRequest::NewView { .. } => "new_view"@,
    }
}

/// Whether `p` is exactly the parameters that write `n`.
pub open spec fn notification_params_are(n: CoreNotification, p: Option<Json>) -> bool {
    match p {
        Some(j) => match n {
            CoreNotification::Edit(c) => scoped_shape(
                j,
                c.view_id,
                edit_notification_name(c.cmd),
                scoped_params(j),
            ) && edit_notification_params_are(c.cmd, scoped_params(j)),
            CoreNotification::Plugin(x) => plugin_json_is(x, j),
            CoreNotification::CloseView { view_id } => match j {
                Json::Object(fs) => fs@.len() == 1 && fs@[0].0@ == "view_id"@ && fs@[0].1 == Json::Str(
                    view_id.0,
                ),
                _ => false,
            },
            CoreNotification::Save { view_id, file_path } => match j {
                Json::Object(fs) => fs@.len() == 2 && fs@[0].0@ == "view_id"@ && fs@[0].1 == Json::Str(
                    view_id.0,
                ) && fs@[1].0@ == "file_path"@ && fs@[1].1 == Json::Str(file_path),
                _ => false,
            },
            CoreNotification::SetTheme { theme_name } => match j {
                Json::Object(fs) => fs@.len() == 1 && fs@[0].0@ == "theme_name"@ && fs@[0].1
                    == Json::Str(theme_name),
                _ => false,
            },
            CoreNotification::ClientStarted(_) => match j {
                Json::Object(fs) => fs@.len() == 0,
                _ => false,
            },
        },
        None => false,
    }
}

/// Whether `p` is exactly the parameters that write `q`.
pub open spec fn request_params_are(q: CoreRequest, p: Option<Json>) -> bool {
    match p {
        Some(j) => match q {
            CoreRequest::Edit(c) => scoped_shape(j, c.view_id, edit_request_name(c.cmd), scoped_params(j))
                && edit_request_params_are(c.cmd, scoped_params(j)),
            CoreRequest::NewView { file_path } => match j {
                Json::Object(fs) => fs@.len() == 1 && fs@[0].0@ == "file_path"@ && fs@[0].1
                    == opt_str_value(file_path),
                _ => false,
            },
        },
        None => false,
    }
}

impl CoreNotification {
    /// Splits the notification into its method name and its parameters;
    /// decoding them gives `self` back.
    pub fn into_parts(self) -> (r: (String, Option<Json>))
        ensures
            notification_of(r.0, r.1) == Ok::<CoreNotification, Error>(self),
            r.0@ == notification_name(self),
            notification_params_are(self, r.1),
    {
        proof {
            reveal_strlit("edit");
            reveal_strlit("plugin");
            assert("plugin"@.len() != "edit"@.len());
            reveal_strlit("close_view");
            assert("close_view"@.len() != "edit"@.len());
            assert("close_view"@.len() != "plugin"@.len());
            reveal_strlit("save");
            assert("save"@[0] != "edit"@[0]);
            assert("save"@.len() != "plugin"@.len());
            assert("save"@.len() != "close_view"@.len());
            reveal_strlit("set_theme");
            assert("set_theme"@.len() != "edit"@.len());
            assert("set_theme"@.len() != "plugin"@.len());
            assert("set_theme"@.len() != "close_view"@.len());
            assert("set_theme"@.len() != "save"@.len());
            reveal_strlit("client_started");
            assert("client_started"@.len() != "edit"@.len());
            assert("client_started"@.len() != "plugin"@.len());
            assert("client_started"@.len() != "close_view"@.len());
            assert("client_started"@.len() != "save"@.len());
            assert("client_started"@.len() != "set_theme"@.len());
            reveal_strlit("view_id");
            reveal_strlit("file_path");
            assert("file_path"@.len() != "view_id"@.len());
            reveal_strlit("theme_name");
            assert("theme_name"@.len() != "view_id"@.len());
            assert("theme_name"@.len() != "file_path"@.len());
        }
        match self {
            CoreNotification::Edit(c) => (text("edit"), Some(c.into_json())),
            CoreNotification::Plugin(n) => (text("plugin"), Some(n.into_json())),
            CoreNotification::CloseView { view_id } => {
                let ghost v0 = view_id;
                let mut fs: Vec<(String, Json)> = Vec::new();
                push_member(&mut fs, "view_id", Json::Str(view_id.0));
                proof {
                    assert(ViewIdentifier(v0.0) == v0);
                }
                (text("close_view"), Some(Json::Object(fs)))
            },
            CoreNotification::Save { view_id, file_path } => {
                let ghost v0 = view_id;
                let mut fs: Vec<(String, Json)> = Vec::new();
                push_member(&mut fs, "view_id", Json::Str(view_id.0));
                push_member(&mut fs, "file_path", Json::Str(file_path));
                proof {
                    assert(ViewIdentifier(v0.0) == v0);
                }
                (text("save"), Some(Json::Object(fs)))
            },
            CoreNotification::SetTheme { theme_name } => {
                let mut fs: Vec<(String, Json)> = Vec::new();
                push_member(&mut fs, "theme_name", Json::Str(theme_name));
                (text("set_theme"), Some(Json::Object(fs)))
            },
            CoreNotification::ClientStarted(_) => {
                let fs: Vec<(String, Json)> = Vec::new();
                (text("client_started"), Some(Json::Object(fs)))
            },
        }
    }
}

impl CoreRequest {
    /// Splits the request into its method name and its parameters; decoding
    /// them gives `self` back.
    pub fn into_parts(self) -> (r: (String, Option<Json>))
        ensures
            request_of(r.0, r.1) == Ok::<CoreRequest, Error>(self),
            r.0@ == request_name(self),
            request_params_are(self, r.1),
    {
        proof {
            reveal_strlit("edit");
            reveal_strlit("new_view");
            assert("new_view"@.len() != "edit"@.len());
        }
        match self {
            CoreRequest::Edit(c) => (text("edit"), Some(c.into_json())),
            CoreRequest::NewView { file_path } => {
                let mut fs: Vec<(String, Json)> = Vec::new();
                push_member(&mut fs, "file_path", opt_str_json(file_path));
                (text("new_view"), Some(Json::Object(fs)))
            },
        }
    }
}

// ---------------------------------------------------------------------------
// Whole messages
// ---------------------------------------------------------------------------

/// What a whole message denotes, or `None` when it is no object or has no
/// string `method`. A message with an `id` member, whatever its value, is a
/// request; one without is a notification.
pub open spec fn message_of(msg: Json) -> Option<Result<Message, Error>> {
    match msg {
        Json::Object(fs) => match str_field(fs@, "method"@) {
            Some(m) => Some(
                match lookup(fs@, "id"@) {
                    Some(id) => match request_of(m, lookup(fs@, "params"@)) {
                        Ok(request) => Ok(Message::Request { id, request }),
                        Err(e) => Err(e),
                    },
                    None => match notification_of(m, lookup(fs@, "params"@)) {
                        Ok(n) => Ok(Message::Notification(n)),
                        Err(e) => Err(e),
                    },
                },
            ),
            None => None,
        },
        _ => None,
    }
}

/// Decodes one message. A value that is no object, or has no string
/// `method`, gives `UnknownCoreMethod` with an empty name.
pub fn decode_message(msg: Json) -> (r: Result<Message, Error>)
    ensures
        match message_of(msg) {
            Some(x) => r == x,
            None => r matches Err(Error::UnknownCoreMethod(m)) && m@.len() == 0,
        },
{
    match msg {
        Json::Object(mut fs) => match get_str(&fs, "method") {
            Some(m) => {
                let ghost before = fs@;
                let id = take_member(&mut fs, "id");
                let params = take_member(&mut fs, "params");
                proof {
                    reveal_strlit("id");
                    reveal_strlit("params");
                    assert("params"@.len() != "id"@.len());
                    assert(lookup(before, "params"@) == params);
                }
                match id {
                    Some(id) => match decode_request(m, params) {
                        Ok(request) => Ok(Message::Request { id, request }),
                        Err(e) => Err(e),
                    },
                    None => match decode_notification(m, params) {
                        Ok(n) => Ok(Message::Notification(n)),
                        Err(e) => Err(e),
                    },
                }
            },
            None => Err(Error::UnknownCoreMethod(String::new())),
        },
        _ => Err(Error::UnknownCoreMethod(String::new())),
    }
}

/// The parameters among the members `fs` of a call: its second member, when
/// there are two.
pub open spec fn call_params(fs: Seq<(String, Json)>) -> Option<Json> {
    if fs.len() == 2 {
        Some(fs[1].1)
    } else {
        None
    }
}

/// Whether `fs` is exactly `method` holding `name`, then `params` when
/// there are any.
pub open spec fn call_members_are(fs: Seq<(String, Json)>, name: Seq<char>) -> bool {
    (fs.len() == 1 || (fs.len() == 2 && fs[1].0@ == "params"@)) && text_member_is(
        fs[0],
        "method"@,
        name,
    )
}

/// Whether `j` is exactly the object that writes `msg`: `id` first for a
/// request, then `method`, then `params` when there are any.
pub open spec fn message_json_is(msg: Message, j: Json) -> bool {
    match j {
        Json::Object(fs) => match msg {
            Message::Request { id, request } => fs@.len() >= 1 && fs@[0].0@ == "id"@ && fs@[0].1 == id
                && call_members_are(fs@.drop_first(), request_name(request)) && request_params_are(
                request,
                call_params(fs@.drop_first()),
            ),
            Message::Notification(n) => call_members_are(fs@, notification_name(n))
                && notification_params_are(n, call_params(fs@)),
        },
        _ => false,
    }
}

impl Message {
    /// Writes the message as an object: `id` for a request, then `method`,
    /// then `params` when there are any. Decoding it gives `self` back.
    pub fn into_json(self) -> (r: Json)
        ensures
            message_of(r) == Some(Ok::<Message, Error>(self)),
            message_json_is(self, r),
    {
        proof {
            reveal_strlit("id");
            reveal_strlit("method");
            assert("method"@.len() != "id"@.len());
            reveal_strlit("params");
            assert("params"@.len() != "id"@.len());
            assert("params"@[0] != "method"@[0]);
        }
        let mut fs: Vec<(String, Json)> = Vec::new();
        match self {
            Message::Request { id, request } => {
                let (m, p) = request.into_parts();
                push_member(&mut fs, "id", id);
                push_member(&mut fs, "method", Json::Str(m));
                match p {
                    Some(p) => push_member(&mut fs, "params", p),
                    None => {},
                }
            },
            Message::Notification(n) => {
                let (m, p) = n.into_parts();
                push_member(&mut fs, "method", Json::Str(m));
                match p {
                    Some(p) => push_member(&mut fs, "params", p),
                    None => {},
                }
            },
        }
        Json::Object(fs)
    }
}

/// A unit edit command decodes the same whether its `params` member is
/// absent, an empty object or an empty array: for two edit objects that
/// agree on every other member and carry a view and a method, the `edit`
/// notification and request they make are the same.
pub proof fn lemma_unit_edit_params_decode_alike(
    method: String,
    fa: Vec<(String, Json)>,
    fb: Vec<(String, Json)>,
)
    requires
        method@ == "edit"@,
        forall|k: Seq<char>| k != "params"@ ==> #[trigger] lookup(fa@, k) == lookup(fb@, k),
        lookup(fa@, "params"@) is None,
        lookup(fb@, "params"@) matches Some(e) && is_empty_container(e),
        scoped_parts(Json::Object(fa)) is Some,
    ensures
        notification_of(method, Some(Json::Object(fa))) == notification_of(
            method,
            Some(Json::Object(fb)),
        ),
        request_of(method, Some(Json::Object(fa))) == request_of(method, Some(Json::Object(fb))),
{
    lemma_empty_params_normalized(fa, fb);
    reveal_strlit("edit");
}

/// A message is decoded as a request exactly when it has an `id` member,
/// and as a notification exactly when it has none.
pub proof fn lemma_id_decides_kind(fs: Vec<(String, Json)>)
    ensures
        message_of(Json::Object(fs)) matches Some(Ok(Message::Request { .. })) ==> lookup(
            fs@,
            "id"@,
        ) is Some,
        message_of(Json::Object(fs)) matches Some(Ok(Message::Notification(_))) ==> lookup(
            fs@,
            "id"@,
        ) is None,
{
}

} // verus!
