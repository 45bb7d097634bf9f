use assistant_threads::{
    Annotation, Content, Json, Message, MessageObject, Metadata, Number, Role, SchemaError, Thread,
};
use serde_json::Value;

fn from_value(value: Value) -> Json {
    match value {
        Value::Null => Json::Null,
        Value::Bool(b) => Json::Bool(b),
        Value::Number(n) => Json::Number(match (n.as_u64(), n.as_i64(), n.as_f64()) {
            (Some(u), _, _) => Number::PosInt(u),
            (None, Some(i), _) => Number::NegInt(i),
            (None, None, f) => Number::Float(f.unwrap().to_bits()),
        }),
        Value::String(s) => Json::String(s),
        Value::Array(items) => Json::Array(items.into_iter().map(from_value).collect()),
        Value::Object(fields) => {
            Json::Object(fields.into_iter().map(|(name, value)| (name, from_value(value))).collect())
        }
    }
}

fn to_value(json: &Json) -> Value {
    match json {
        Json::Null => Value::Null,
        Json::Bool(b) => Value::Bool(*b),
        Json::Number(Number::PosInt(u)) => Value::from(*u),
        Json::Number(Number::NegInt(i)) => Value::from(*i),
        Json::Number(Number::Float(bits)) => Value::from(f64::from_bits(*bits)),
        Json::String(s) => Value::String(s.clone()),
        Json::Array(items) => Value::Array(items.iter().map(to_value).collect()),
        Json::Object(fields) => Value::Object(
            fields.iter().map(|(name, value)| (name.clone(), to_value(value))).collect(),
        ),
    }
}

fn parse(text: &str) -> Json {
    from_value(serde_json::from_str(text).unwrap())
}

fn print(json: &Json) -> String {
    serde_json::to_string(&to_value(json)).unwrap()
}

#[test]
fn a_thread_is_read_from_text() {
    let thread = Thread::from_json(&parse(
        r#"{"id": "thread_abc123", "object": "thread", "created": 1699012949,
            "metadata": {"user": "u_1", "tries": 2, "tags": ["a", "b"], "ratio": 0.5}}"#,
    ))
    .unwrap();
    assert_eq!(thread.id, "thread_abc123");
    assert_eq!(thread.object, "thread");
    assert_eq!(thread.created, 1699012949);
    let metadata = Json::Object(thread.metadata.clone());
    assert_eq!(metadata.field("user"), Some(&Json::String("u_1".to_string())));
    assert_eq!(metadata.field("tries"), Some(&Json::Number(Number::PosInt(2))));
    assert_eq!(metadata.field("ratio"), Some(&Json::Number(Number::Float(0.5f64.to_bits()))));
    assert_eq!(to_value(&parse(&print(&thread.to_json()))), to_value(&thread.to_json()));
    assert_eq!(Thread::from_json(&parse(&print(&thread.to_json()))), Ok(thread));
}

#[test]
fn a_kept_message_is_read_from_text() {
    let message = MessageObject::from_json(&parse(
        r#"{
            "id": "msg_abc123",
            "object": "thread.message",
            "created": 1699017614,
            "thread_id": "thread_abc123",
            "status": "completed",
            "incomplete_details": null,
            "role": "assistant",
            "content": {
                "type": "text",
                "text": {
                    "value": "The answer is in the report [1].",
                    "annotations": [
                        {"type": "file_citation", "text": "[1]",
                         "file_citation": {"file_id": "file_1", "quote": "42"},
                         "start_index": 28, "end_index": 31},
                        {"type": "file_path", "text": "sandbox:/report.pdf",
                         "file_path": {"file_id": "file_2"},
                         "start_index": 0, "end_index": 3}
                    ]
                }
            },
            "file_ids": ["file_1", "file_2"],
            "unknown_field": [1, 2, 3]
        }"#,
    ))
    .unwrap();
    assert_eq!(message.id, "msg_abc123");
    assert_eq!(message.thread_id, "thread_abc123");
    assert_eq!(message.incomplete_details, None);
    assert_eq!(message.role, Role::Assistant);
    assert_eq!(message.file_ids, Some(vec!["file_1".to_string(), "file_2".to_string()]));
    assert!(message.metadata.is_empty());
    match &message.content {
        Content::Text(content) => {
            assert_eq!(content.text.value, "The answer is in the report [1].");
            assert_eq!(content.text.annotations.len(), 2);
            match &content.text.annotations[0] {
                Annotation::FileCitation(a) => {
                    assert_eq!(a.file_citation.quote, "42");
                    assert_eq!((a.start_index, a.end_index), (28, 31));
                }
                other => panic!("no citing annotation: {:?}", other),
            }
            match &content.text.annotations[1] {
                Annotation::FilePath(a) => assert_eq!(a.file_path.file_id, "file_2"),
                other => panic!("no path annotation: {:?}", other),
            }
        }
        other => panic!("no text: {:?}", other),
    }
    assert_eq!(MessageObject::from_json(&parse(&print(&message.to_json()))), Ok(message));
}

#[test]
fn an_incomplete_message_is_read_from_text() {
    let message = MessageObject::from_json(&parse(
        r#"{"id": "m", "object": "thread.message", "created": 1, "thread_id": "t",
            "status": "incomplete", "incomplete_details": {"reason": "content_filter"},
            "role": "owner",
            "content": {"type": "image_file", "image_file": {"file_id": "file_3"}},
            "metadata": {"k": "v"}}"#,
    ))
    .unwrap();
    assert_eq!(message.incomplete_details.unwrap().reason, "content_filter");
    assert_eq!(message.metadata.get("k"), Some(&"v".to_string()));
    assert_eq!(message.file_ids, None);
}

#[test]
fn a_message_is_written_as_text() {
    let mut metadata = Metadata::new();
    metadata.insert("k".to_string(), "v".to_string());
    let message = Message {
        role: Role::Owner,
        content: "hi \"there\"".to_string(),
        file_ids: None,
        metadata,
    };
    assert_eq!(
        print(&message.to_json()),
        r#"{"content":"hi \"there\"","metadata":{"k":"v"},"role":"owner"}"#
    );
    let with_files = Message { file_ids: Some(vec!["f".to_string()]), ..message };
    assert_eq!(
        print(&with_files.to_json()),
        r#"{"content":"hi \"there\"","file_ids":["f"],"metadata":{"k":"v"},"role":"owner"}"#
    );
    assert_eq!(Message::from_json(&parse(&print(&with_files.to_json()))), Ok(with_files));
}

#[test]
fn the_requests_are_written_as_text() {
    let message = Message {
        role: Role::Owner,
        content: "hi".to_string(),
        file_ids: None,
        metadata: Metadata::new(),
    };
    assert_eq!(
        print(&Thread::create(vec![message], Metadata::new()).body.unwrap()),
        r#"{"messages":[{"content":"hi","metadata":{},"role":"owner"}],"metadata":{}}"#
    );
    let mut metadata = Metadata::new();
    metadata.insert("a".to_string(), "b".to_string());
    assert_eq!(print(&Thread::update("t", metadata).body.unwrap()), r#"{"metadata":{"a":"b"}}"#);
    assert_eq!(
        print(&Thread::create_message("t", Role::Owner, "hello", None, None).body.unwrap()),
        r#"{"content":"hello","metadata":null,"role":"owner"}"#
    );
    let notes = parse(r#"{"n": -3}"#);
    assert_eq!(
        print(
            &Thread::create_message(
                "t",
                Role::Assistant,
                "x",
                Some(vec!["f1".to_string()]),
                Some(notes)
            )
            .body
            .unwrap()
        ),
        r#"{"content":"x","file_ids":["f1"],"metadata":{"n":-3},"role":"assistant"}"#
    );
}

#[test]
fn text_of_another_shape_is_refused() {
    assert_eq!(Thread::from_json(&parse("[]")), Err(SchemaError::TypeMismatch));
    assert_eq!(Thread::from_json(&parse("{}")), Err(SchemaError::MissingField));
    assert_eq!(
        Thread::from_json(&parse(r#"{"id": "t", "object": "thread", "created": 1.0}"#)),
        Err(SchemaError::TypeMismatch)
    );
    assert_eq!(
        Thread::from_json(&parse(r#"{"id": "t", "object": "thread", "created": -1}"#)),
        Err(SchemaError::OutOfRange)
    );
    assert_eq!(
        Message::from_json(&parse(r#"{"role": "Owner", "content": "hi"}"#)),
        Err(SchemaError::UnknownVariant)
    );
}
