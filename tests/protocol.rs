use serde_json::Value;
use xi_rpc_grammar::edit::{EditNotification, EditRequest};
use xi_rpc_grammar::json::Json;
use xi_rpc_grammar::message::{
    decode_message, CoreNotification, CoreRequest, Error, Message, PlaceholderRpc,
    PluginNotification, RpcType,
};
use xi_rpc_grammar::positional::{LineRange, MouseAction};
use xi_rpc_grammar::protocol::{EditCommand, EmptyStruct, GestureType, ViewIdentifier};

fn from_value(v: &Value) -> Json {
    match v {
        Value::Null => Json::Null,
        Value::Bool(b) => Json::Bool(*b),
        Value::Number(n) => match n.as_u64() {
            Some(u) => Json::Int(u),
            None => Json::OtherNumber(n.to_string()),
        },
        Value::String(s) => Json::Str(s.clone()),
        Value::Array(a) => Json::Array(a.iter().map(from_value).collect()),
        Value::Object(o) => Json::Object(o.iter().map(|(k, v)| (k.clone(), from_value(v))).collect()),
    }
}

fn to_value(j: &Json) -> Value {
    match j {
        Json::Null => Value::Null,
        Json::Bool(b) => Value::Bool(*b),
        Json::Int(n) => Value::from(*n),
        Json::OtherNumber(s) => serde_json::from_str(s).unwrap(),
        Json::Str(s) => Value::String(s.clone()),
        Json::Array(a) => Value::Array(a.iter().map(to_value).collect()),
        Json::Object(o) => Value::Object(o.iter().map(|(k, v)| (k.clone(), to_value(v))).collect()),
    }
}

fn parse(text: &str) -> Json {
    from_value(&serde_json::from_str::<Value>(text).unwrap())
}

fn decode(text: &str) -> Result<Message, Error> {
    decode_message(parse(text))
}

fn view(s: &str) -> ViewIdentifier {
    ViewIdentifier(s.to_string())
}

fn edit_notification(text: &str) -> EditCommand<EditNotification> {
    match decode(text) {
        Ok(Message::Notification(CoreNotification::Edit(c))) => c,
        other => panic!("not an edit notification: {:?}", other),
    }
}

#[test]
fn line_range_decodes_pair() {
    assert_eq!(LineRange::from_json(&parse("[3,13]")), Some(LineRange { start: 3, end: 13 }));
}

#[test]
fn line_range_rejects_other_shapes() {
    assert_eq!(LineRange::from_json(&parse("[1,2,3]")), None);
    assert_eq!(LineRange::from_json(&parse("[\"a\",\"b\"]")), None);
    assert_eq!(LineRange::from_json(&parse("[1]")), None);
    assert_eq!(LineRange::from_json(&parse("{\"start\":1,\"end\":2}")), None);
    assert_eq!(LineRange::from_json(&parse("[-1,2]")), None);
}

#[test]
fn line_range_encodes_as_array() {
    let j = LineRange { start: 3, end: 13 }.to_json();
    assert_eq!(to_value(&j), serde_json::from_str::<Value>("[3,13]").unwrap());
}

#[test]
fn mouse_action_three_elements_has_no_click_count() {
    let m = MouseAction::from_json(&parse("[5,34,0]")).unwrap();
    assert_eq!(m, MouseAction { line: 5, column: 34, flags: 0, click_count: None });
}

#[test]
fn mouse_action_four_elements_has_click_count() {
    let m = MouseAction::from_json(&parse("[3,10,0,1]")).unwrap();
    assert_eq!(m, MouseAction { line: 3, column: 10, flags: 0, click_count: Some(1) });
}

#[test]
fn mouse_action_rejects_wrong_lengths() {
    assert_eq!(MouseAction::from_json(&parse("[1,2]")), None);
    assert_eq!(MouseAction::from_json(&parse("[1,2,3,4,5]")), None);
    assert_eq!(MouseAction::from_json(&parse("[1,2,\"x\"]")), None);
}

#[test]
fn mouse_action_encodes_both_forms() {
    let short = MouseAction { line: 5, column: 34, flags: 0, click_count: None }.to_json();
    assert_eq!(to_value(&short), serde_json::from_str::<Value>("[5,34,0]").unwrap());
    let long = MouseAction { line: 3, column: 10, flags: 0, click_count: Some(1) }.to_json();
    assert_eq!(to_value(&long), serde_json::from_str::<Value>("[3,10,0,1]").unwrap());
}

#[test]
fn id_makes_a_request() {
    match decode(r#"{"id":0,"method":"new_view","params":{}}"#) {
        Ok(Message::Request { id, request }) => {
            assert_eq!(id, Json::Int(0));
            assert_eq!(request, CoreRequest::NewView { file_path: None });
        }
        other => panic!("{:?}", other),
    }
}

#[test]
fn null_id_still_makes_a_request() {
    assert!(matches!(
        decode(r#"{"id":null,"method":"new_view","params":{"file_path":"a.rs"}}"#),
        Ok(Message::Request { request: CoreRequest::NewView { file_path: Some(_) }, .. })
    ));
}

#[test]
fn no_id_makes_a_notification() {
    assert_eq!(
        decode(r#"{"method":"client_started","params":{}}"#),
        Ok(Message::Notification(CoreNotification::ClientStarted(EmptyStruct {})))
    );
}

#[test]
fn missing_method_fails_classification() {
    assert_eq!(decode(r#"{"params":{}}"#), Err(Error::UnknownCoreMethod(String::new())));
    assert_eq!(decode("[1,2]"), Err(Error::UnknownCoreMethod(String::new())));
    assert_eq!(decode(r#"{"method":3}"#), Err(Error::UnknownCoreMethod(String::new())));
}

#[test]
fn unknown_core_method() {
    assert_eq!(
        decode(r#"{"method":"not_a_real_method","params":{}}"#),
        Err(Error::UnknownCoreMethod("not_a_real_method".to_string()))
    );
}

#[test]
fn notification_method_sent_as_request_is_unknown() {
    assert_eq!(
        decode(r#"{"id":1,"method":"client_started","params":{}}"#),
        Err(Error::UnknownCoreMethod("client_started".to_string()))
    );
}

#[test]
fn malformed_core_params() {
    assert_eq!(
        decode(r#"{"method":"set_theme","params":{"theme":"x"}}"#),
        Err(Error::MalformedCoreParams(
            "set_theme".to_string(),
            parse(r#"{"theme":"x"}"#)
        ))
    );
    assert_eq!(
        decode(r#"{"method":"close_view"}"#),
        Err(Error::MalformedCoreParams("close_view".to_string(), Json::Null))
    );
}

#[test]
fn edit_without_view_is_malformed_core_params() {
    assert_eq!(
        decode(r#"{"method":"edit","params":{"method":"undo"}}"#),
        Err(Error::MalformedCoreParams("edit".to_string(), parse(r#"{"method":"undo"}"#)))
    );
}

#[test]
fn unknown_edit_method() {
    assert_eq!(
        decode(r#"{"method":"edit","params":{"view_id":"v","method":"fly"}}"#),
        Err(Error::UnknownEditMethod("fly".to_string()))
    );
}

#[test]
fn malformed_edit_params() {
    assert_eq!(
        decode(r#"{"method":"edit","params":{"view_id":"v","method":"scroll","params":[1,2,3]}}"#),
        Err(Error::MalformedEditParams("scroll".to_string(), parse("[1,2,3]")))
    );
    assert_eq!(
        decode(r#"{"method":"edit","params":{"view_id":"v","method":"insert"}}"#),
        Err(Error::MalformedEditParams("insert".to_string(), Json::Null))
    );
}

#[test]
fn malformed_plugin_params() {
    assert_eq!(
        decode(r#"{"method":"plugin","params":{"command":"start","view_id":"v"}}"#),
        Err(Error::MalformedPluginParams(
            "start".to_string(),
            parse(r#"{"command":"start","view_id":"v"}"#)
        ))
    );
}

#[test]
fn error_descriptions_name_the_kind() {
    assert_eq!(Error::UnknownCoreMethod("x".to_string()).description(), "Unknown core method");
    assert_eq!(
        Error::MalformedPluginParams("x".to_string(), Json::Null).description(),
        "Malformed plugin parameters"
    );
    assert_eq!(Error::UnknownEditMethod("fly".to_string()).method(), "fly");
}

#[test]
fn empty_params_forms_decode_alike() {
    let absent = edit_notification(r#"{"method":"edit","params":{"view_id":"v","method":"delete_forward"}}"#);
    let object = edit_notification(r#"{"method":"edit","params":{"view_id":"v","method":"delete_forward","params":{}}}"#);
    let array = edit_notification(r#"{"method":"edit","params":{"view_id":"v","method":"delete_forward","params":[]}}"#);
    assert_eq!(absent, EditCommand { view_id: view("v"), cmd: EditNotification::DeleteForward });
    assert_eq!(absent, object);
    assert_eq!(absent, array);
}

#[test]
fn unit_command_with_payload_is_malformed() {
    assert_eq!(
        decode(r#"{"method":"edit","params":{"view_id":"v","method":"undo","params":{"x":1}}}"#),
        Err(Error::MalformedEditParams("undo".to_string(), parse(r#"{"x":1}"#)))
    );
}

#[test]
fn view_scoped_flattening() {
    let msg = Message::Notification(CoreNotification::Edit(EditCommand {
        view_id: view("view-id-1"),
        cmd: EditNotification::Insert { chars: "hi".to_string() },
    }));
    let j = msg.into_json();
    let expected = r#"{"method":"edit","params":{"view_id":"view-id-1","method":"insert","params":{"chars":"hi"}}}"#;
    assert_eq!(to_value(&j), serde_json::from_str::<Value>(expected).unwrap());
    assert_eq!(
        decode(expected),
        Ok(Message::Notification(CoreNotification::Edit(EditCommand {
            view_id: view("view-id-1"),
            cmd: EditNotification::Insert { chars: "hi".to_string() },
        })))
    );
}

#[test]
fn edit_request_flattening() {
    let req = CoreRequest::Edit(EditCommand { view_id: view("v"), cmd: EditRequest::Copy });
    let (m, p) = req.into_parts();
    assert_eq!(m, "edit");
    let expected = serde_json::from_str::<Value>(r#"{"view_id":"v","method":"copy"}"#).unwrap();
    assert_eq!(to_value(&p.unwrap()), expected);
}

fn round_trip(msg: Message) {
    let shown = format!("{:?}", msg);
    let back = decode_message(msg.into_json());
    assert_eq!(format!("{:?}", back.unwrap()), shown);
}

#[test]
fn round_trips() {
    let v = || view("view-id-1");
    let notes = vec![
        EditNotification::Insert { chars: "a\nb".to_string() },
        EditNotification::MoveToEndOfDocumentAndModifySelection,
        EditNotification::Scroll(LineRange { start: 0, end: 10 }),
        EditNotification::GotoLine { line: 7 },
        EditNotification::RequestLines(LineRange { start: 12, end: 13 }),
        EditNotification::Click(MouseAction { line: 3, column: 10, flags: 0, click_count: Some(1) }),
        EditNotification::Drag(MouseAction { line: 5, column: 34, flags: 0, click_count: None }),
        EditNotification::Gesture { line: 1, column: 2, ty: GestureType::ToggleSel },
        EditNotification::FindNext { wrap_around: true, allow_same: false },
        EditNotification::FindPrevious { wrap_around: false },
        EditNotification::DebugPrintSpans,
    ];
    for cmd in notes {
        round_trip(Message::Notification(CoreNotification::Edit(EditCommand { view_id: v(), cmd })));
    }
    let requests = vec![
        EditRequest::Cut,
        EditRequest::Find { chars: None, case_sensitive: true },
        EditRequest::Find { chars: Some("x".to_string()), case_sensitive: false },
    ];
    for cmd in requests {
        round_trip(Message::Request {
            id: Json::Int(4),
            request: CoreRequest::Edit(EditCommand { view_id: v(), cmd }),
        });
    }
    round_trip(Message::Request { id: Json::Str("a".to_string()), request: CoreRequest::NewView { file_path: Some("f".to_string()) } });
    round_trip(Message::Notification(CoreNotification::CloseView { view_id: v() }));
    round_trip(Message::Notification(CoreNotification::Save { view_id: v(), file_path: "/tmp/x".to_string() }));
    round_trip(Message::Notification(CoreNotification::SetTheme { theme_name: "InspiredGitHub".to_string() }));
    round_trip(Message::Notification(CoreNotification::ClientStarted(EmptyStruct {})));
    round_trip(Message::Notification(CoreNotification::Plugin(PluginNotification::Start {
        view_id: v(),
        plugin_name: "syntect".to_string(),
    })));
    round_trip(Message::Notification(CoreNotification::Plugin(PluginNotification::Stop {
        view_id: v(),
        plugin_name: "syntect".to_string(),
    })));
    round_trip(Message::Notification(CoreNotification::Plugin(PluginNotification::PluginRpc {
        view_id: v(),
        receiver: "syntect".to_string(),
        rpc: PlaceholderRpc {
            method: "custom".to_string(),
            params: parse(r#"{"a":[1,-2.5,null]}"#),
            rpc_type: RpcType::Request,
        },
    })));
}

#[test]
fn plugin_rpc_keeps_its_payload() {
    let text = r#"{"method":"plugin","params":{"command":"plugin_rpc","view_id":"v","receiver":"r","rpc":{"method":"m","params":[true,"x"],"rpc_type":"notification"}}}"#;
    assert_eq!(
        decode(text),
        Ok(Message::Notification(CoreNotification::Plugin(PluginNotification::PluginRpc {
            view_id: view("v"),
            receiver: "r".to_string(),
            rpc: PlaceholderRpc {
                method: "m".to_string(),
                params: parse(r#"[true,"x"]"#),
                rpc_type: RpcType::Notification,
            },
        })))
    );
}

const SAMPLE: &str = r#"{"method":"client_started","params":{}}
{"method":"set_theme","params":{"theme_name":"InspiredGitHub"}}
{"id":0,"method":"new_view","params":{}}
{"method":"edit","params":{"view_id":"view-id-1","method":"insert","params":{"chars":"\/\/ Copyright 2016 Google Inc. All rights reserved.\n\/\/\n\/\/ Licensed under the Apache License, Version 2.0 (the \"License\");"}}}
{"method":"edit","params":{"view_id":"view-id-1","method":"request_lines","params":[12,13]}}
{"method":"edit","params":{"view_id":"view-id-1","method":"scroll","params":[3,13]}}
{"method":"edit","params":{"view_id":"view-id-1","method":"move_word_right","params":[]}}
{"method":"edit","params":{"view_id":"view-id-1","method":"move_word_left","params":[]}}
{"method":"edit","params":{"view_id":"view-id-1","method":"delete_backward","params":[]}}
{"method":"edit","params":{"view_id":"view-id-1","method":"delete_forward","params":[]}}
{"method":"edit","params":{"view_id":"view-id-1","method":"insert_newline","params":[]}}
{"method":"edit","params":{"view_id":"view-id-1","method":"drag","params":[5,34,0]}}
{"method":"edit","params":{"view_id":"view-id-1","method":"click","params":[3,10,0,1]}}
{"method":"close_view","params":{"view_id":"view-id-1"}}"#;

#[test]
fn sample_stream_decodes_without_errors() {
    let decoded: Vec<Result<Message, Error>> = SAMPLE.lines().map(decode).collect();
    assert_eq!(decoded.len(), 14);
    for d in &decoded {
        assert!(d.is_ok(), "{:?}", d);
    }
    assert!(matches!(decoded[2], Ok(Message::Request { .. })));
    assert_eq!(
        decoded[11],
        Ok(Message::Notification(CoreNotification::Edit(EditCommand {
            view_id: view("view-id-1"),
            cmd: EditNotification::Drag(MouseAction { line: 5, column: 34, flags: 0, click_count: None }),
        })))
    );
}

#[test]
fn error_messages_name_method_and_payload() {
    let unknown = Error::UnknownCoreMethod("fly".to_string());
    assert_eq!(unknown.message(""), "Error: Unknown core method 'fly'");
    assert_eq!(unknown.params(), None);
    let malformed = Error::MalformedEditParams("scroll".to_string(), parse("[1,2,3]"));
    assert_eq!(
        malformed.message("[1,2,3]"),
        "Error: Malformed edit parameters with method 'scroll', parameters: [1,2,3]"
    );
    assert_eq!(malformed.params(), Some(&parse("[1,2,3]")));
    assert_eq!(
        Error::MalformedCoreParams("save".to_string(), Json::Null).message("null"),
        "Error: Malformed core parameters with method 'save', parameters: null"
    );
    assert_eq!(
        Error::UnknownEditMethod("x".to_string()).message(""),
        "Error: Unknown edit method 'x'"
    );
    assert_eq!(
        Error::MalformedPluginParams("start".to_string(), Json::Null).message("{}"),
        "Error: Malformed plugin parameters with method 'start', parameters: {}"
    );
}

#[test]
fn unit_edit_command_omits_params() {
    let c = EditCommand { view_id: view("v"), cmd: EditNotification::DeleteForward };
    let j = c.into_json();
    assert_eq!(
        j,
        Json::Object(vec![
            ("view_id".to_string(), Json::Str("v".to_string())),
            ("method".to_string(), Json::Str("delete_forward".to_string())),
        ])
    );
}

#[test]
fn insert_edit_command_has_exact_members() {
    let c = EditCommand { view_id: view("view-id-1"), cmd: EditNotification::Insert { chars: "hi".to_string() } };
    assert_eq!(
        c.into_json(),
        Json::Object(vec![
            ("view_id".to_string(), Json::Str("view-id-1".to_string())),
            ("method".to_string(), Json::Str("insert".to_string())),
            (
                "params".to_string(),
                Json::Object(vec![("chars".to_string(), Json::Str("hi".to_string()))])
            ),
        ])
    );
}

#[test]
fn request_message_writes_id_first() {
    let msg = Message::Request { id: Json::Int(0), request: CoreRequest::NewView { file_path: None } };
    assert_eq!(
        msg.into_json(),
        Json::Object(vec![
            ("id".to_string(), Json::Int(0)),
            ("method".to_string(), Json::Str("new_view".to_string())),
            ("params".to_string(), Json::Object(vec![("file_path".to_string(), Json::Null)])),
        ])
    );
}
