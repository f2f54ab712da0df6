//! Tests of the dispatch adapter: routing by method name, delegation to
//! the capability, pass-through of its outcome, and the failure answers
//! for unknown methods, malformed payloads and requests.

use xrl::frontend::{handle_notification, handle_request, route_notification};
use xrl::{
    DecodeError, Field, Frontend, Json, Notification, ScrollTo, ServerError, Style, Update,
    ViewId,
};

fn to_json(v: &serde_json::Value) -> Json {
    match v {
        serde_json::Value::Null => Json::Null,
        serde_json::Value::Bool(b) => Json::Bool(*b),
        serde_json::Value::Number(n) => Json::UInt(
            n.as_u64().expect("only unsigned integers appear in these tests"),
        ),
        serde_json::Value::String(s) => Json::Str(s.clone()),
        serde_json::Value::Array(a) => Json::Arr(a.iter().map(to_json).collect()),
        serde_json::Value::Object(m) => {
            Json::Obj(m.iter().map(|(k, v)| (k.clone(), to_json(v))).collect())
        }
    }
}

fn parse(s: &str) -> Json {
    let v: serde_json::Value = serde_json::from_str(s).expect("test input is valid JSON");
    to_json(&v)
}

/// A capability implementation that records every delegated message and
/// answers with a configured outcome.
struct Recorder {
    updates: Vec<Update>,
    scrolls: Vec<ScrollTo>,
    styles: Vec<Style>,
    outcome: Result<(), ServerError>,
}

impl Recorder {
    fn with_outcome(outcome: Result<(), ServerError>) -> Recorder {
        Recorder {
            updates: Vec::new(),
            scrolls: Vec::new(),
            styles: Vec::new(),
            outcome,
        }
    }

    fn new() -> Recorder {
        Recorder::with_outcome(Ok(()))
    }
}

impl Frontend for Recorder {
    fn update(&mut self, update: Update) -> Result<(), ServerError> {
        self.updates.push(update);
        self.outcome.clone()
    }

    fn scroll_to(&mut self, scroll_to: ScrollTo) -> Result<(), ServerError> {
        self.scrolls.push(scroll_to);
        self.outcome.clone()
    }

    fn def_style(&mut self, style: Style) -> Result<(), ServerError> {
        self.styles.push(style);
        self.outcome.clone()
    }
}

#[test]
fn scroll_to_delegates_decoded_message_once() {
    let mut frontend = Recorder::new();
    let r = handle_notification(
        &mut frontend,
        "scroll_to",
        parse(r#"{"col":18,"line":0,"view_id":"view-id-1"}"#),
    );
    assert_eq!(r, Ok(()));
    assert_eq!(frontend.updates.len(), 0);
    assert_eq!(frontend.styles.len(), 0);
    assert_eq!(
        frontend.scrolls,
        vec![ScrollTo {
            line: 0,
            column: 18,
            view_id: ViewId::from_str("view-id-1"),
        }]
    );
}

#[test]
fn capability_outcome_passes_through_unchanged() {
    let failure = Err(ServerError::Other("scroll refused".to_string()));
    let mut frontend = Recorder::with_outcome(failure.clone());
    let r = handle_notification(
        &mut frontend,
        "scroll_to",
        parse(r#"{"col":1,"line":2,"view_id":"v"}"#),
    );
    assert_eq!(r, failure);
    assert_eq!(frontend.scrolls.len(), 1);
}

#[test]
fn update_delegates_whole_object() {
    let mut frontend = Recorder::new();
    let r = handle_notification(&mut frontend, "update", parse(r#"{"view_id":"v","ops":[]}"#));
    assert_eq!(r, Ok(()));
    assert_eq!(frontend.updates.len(), 1);
    let expected = match parse(r#"{"view_id":"v","ops":[]}"#) {
        Json::Obj(fields) => fields,
        _ => unreachable!(),
    };
    assert_eq!(frontend.updates[0].content, expected);
}

#[test]
fn def_style_delegates_whole_object() {
    let mut frontend = Recorder::new();
    let r = handle_notification(&mut frontend, "def_style", parse(r#"{"id":3}"#));
    assert_eq!(r, Ok(()));
    assert_eq!(frontend.styles.len(), 1);
}

#[test]
fn unknown_method_is_reported_with_its_name() {
    let mut frontend = Recorder::new();
    let r = handle_notification(&mut frontend, "frobnicate", parse("{}"));
    assert_eq!(
        r,
        Err(ServerError::UnknownMethod("frobnicate".to_string()))
    );
    assert_eq!(frontend.updates.len(), 0);
    assert_eq!(frontend.scrolls.len(), 0);
    assert_eq!(frontend.styles.len(), 0);
}

#[test]
fn malformed_scroll_to_payload_reports_missing_fields() {
    let mut frontend = Recorder::new();
    let r = handle_notification(&mut frontend, "scroll_to", parse(r#"{"line": 0}"#));
    assert_eq!(
        r,
        Err(ServerError::DeserializeFailed(DecodeError::MissingField(
            Field::Col
        )))
    );
    assert_eq!(frontend.scrolls.len(), 0);
}

#[test]
fn wrong_typed_scroll_to_field_rejected_for_each_method() {
    let mut frontend = Recorder::new();
    let r = handle_notification(
        &mut frontend,
        "scroll_to",
        parse(r#"{"line":true,"col":1,"view_id":"v"}"#),
    );
    assert_eq!(
        r,
        Err(ServerError::DeserializeFailed(DecodeError::WrongFieldType(
            Field::Line
        )))
    );
    let r = handle_notification(&mut frontend, "update", Json::Str("nope".to_string()));
    assert_eq!(
        r,
        Err(ServerError::DeserializeFailed(DecodeError::NotAnObject))
    );
    let r = handle_notification(&mut frontend, "def_style", Json::UInt(9));
    assert_eq!(
        r,
        Err(ServerError::DeserializeFailed(DecodeError::NotAnObject))
    );
    assert_eq!(frontend.updates.len(), 0);
    assert_eq!(frontend.scrolls.len(), 0);
    assert_eq!(frontend.styles.len(), 0);
}

#[test]
fn every_request_fails_cleanly() {
    let mut frontend = Recorder::new();
    let r = handle_request(&mut frontend, "scroll_to", parse("{}"));
    assert_eq!(r, Err(ServerError::UnsupportedRequest));
    let r = handle_request(&mut frontend, "frobnicate", Json::Null);
    assert_eq!(r, Err(ServerError::UnsupportedRequest));
}

#[test]
fn route_decodes_without_touching_the_capability() {
    let routed = route_notification("scroll_to", parse(r#"{"col":4,"line":5,"view_id":"v"}"#));
    assert_eq!(
        routed,
        Ok(Notification::ScrollTo(ScrollTo {
            line: 5,
            column: 4,
            view_id: ViewId::from_str("v"),
        }))
    );
    let routed = route_notification("shutdown", Json::Null);
    assert_eq!(
        routed,
        Err(ServerError::UnknownMethod("shutdown".to_string()))
    );
}
