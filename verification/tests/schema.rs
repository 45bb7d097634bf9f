use assistant_threads::{
    Annotation, Content, DeletedThread, FileCitation, FileCitationAnnotation, FilePath,
    FilePathAnnotation, ImageFile, ImageFileContent, IncompleteDetails, Json, Message,
    MessageObject, Metadata, Number, Role, SchemaError, Text, TextContent, Thread, ThreadBuilder,
};

fn text(s: &str) -> Json {
    Json::String(s.to_string())
}

fn number(n: u64) -> Json {
    Json::Number(Number::PosInt(n))
}

fn object(fields: Vec<(&str, Json)>) -> Json {
    Json::Object(fields.into_iter().map(|(name, value)| (name.to_string(), value)).collect())
}

fn citing_annotation() -> Annotation {
    Annotation::FileCitation(FileCitationAnnotation {
        text: "[1]".to_string(),
        file_citation: FileCitation { file_id: "file_1".to_string(), quote: "to be".to_string() },
        start_index: 4,
        end_index: 7,
    })
}

fn path_annotation() -> Annotation {
    Annotation::FilePath(FilePathAnnotation {
        text: "sandbox:/out.csv".to_string(),
        file_path: FilePath { file_id: "file_2".to_string() },
        start_index: 0,
        end_index: 16,
    })
}

fn text_content() -> Content {
    Content::Text(TextContent {
        text: Text {
            value: "see [1]".to_string(),
            annotations: vec![citing_annotation(), path_annotation()],
        },
    })
}

fn kept_message() -> MessageObject {
    let mut metadata = Metadata::new();
    metadata.insert("lang".to_string(), "en".to_string());
    MessageObject {
        id: "msg_1".to_string(),
        object: "thread.message".to_string(),
        created: 1_700_000_000,
        thread_id: "thread_1".to_string(),
        status: "incomplete".to_string(),
        incomplete_details: Some(IncompleteDetails { reason: "max_tokens".to_string() }),
        role: Role::Assistant,
        content: text_content(),
        file_ids: Some(vec!["file_1".to_string()]),
        metadata,
    }
}

fn kept_message_json() -> Json {
    object(vec![
        ("id", text("msg_1")),
        ("object", text("thread.message")),
        ("created", number(7)),
        ("thread_id", text("thread_1")),
        ("status", text("completed")),
        ("role", text("owner")),
        (
            "content",
            object(vec![("type", text("image_file")), ("image_file", object(vec![("file_id", text("file_9"))]))]),
        ),
    ])
}

fn without(json: &Json, name: &str) -> Json {
    match json {
        Json::Object(fields) => {
            Json::Object(fields.iter().filter(|(n, _)| n != name).cloned().collect())
        }
        other => other.clone(),
    }
}

fn with(json: &Json, name: &str, value: Json) -> Json {
    match json {
        Json::Object(fields) => {
            let mut fields = fields.clone();
            fields.push((name.to_string(), value));
            Json::Object(fields)
        }
        other => other.clone(),
    }
}

#[test]
fn a_role_is_written_as_its_lower_case_name() {
    assert_eq!(Role::Owner.to_json(), text("owner"));
    assert_eq!(Role::Assistant.to_json(), text("assistant"));
}

#[test]
fn a_role_is_read_from_its_name_only() {
    assert_eq!(Role::from_json(&text("owner")), Ok(Role::Owner));
    assert_eq!(Role::from_json(&text("assistant")), Ok(Role::Assistant));
    assert_eq!(Role::from_json(&text("Owner")), Err(SchemaError::UnknownVariant));
    assert_eq!(Role::from_json(&text("user")), Err(SchemaError::UnknownVariant));
    assert_eq!(Role::from_json(&text("")), Err(SchemaError::UnknownVariant));
    assert_eq!(Role::from_json(&Json::Null), Err(SchemaError::TypeMismatch));
    assert_eq!(Role::from_json(&number(0)), Err(SchemaError::TypeMismatch));
}

#[test]
fn a_message_comes_back_from_its_json() {
    let mut metadata = Metadata::new();
    metadata.insert("a".to_string(), "1".to_string());
    metadata.insert("b".to_string(), "2".to_string());
    let message = Message {
        role: Role::Owner,
        content: "hi".to_string(),
        file_ids: Some(vec!["file_1".to_string(), "file_2".to_string()]),
        metadata,
    };
    assert_eq!(Message::from_json(&message.to_json()), Ok(message));
}

#[test]
fn a_message_without_file_ids_comes_back_from_its_json() {
    let message = Message {
        role: Role::Assistant,
        content: String::new(),
        file_ids: None,
        metadata: Metadata::new(),
    };
    let json = message.to_json();
    assert_eq!(json.field("file_ids"), None);
    assert_eq!(Message::from_json(&json), Ok(message));
}

#[test]
fn a_message_reads_null_file_ids_as_none() {
    let json = object(vec![
        ("role", text("owner")),
        ("content", text("hi")),
        ("file_ids", Json::Null),
    ]);
    let message = Message::from_json(&json).unwrap();
    assert_eq!(message.file_ids, None);
    assert!(message.metadata.is_empty());
}

#[test]
fn a_message_needs_role_and_content() {
    let whole = object(vec![("role", text("owner")), ("content", text("hi"))]);
    assert!(Message::from_json(&whole).is_ok());
    assert_eq!(Message::from_json(&without(&whole, "role")), Err(SchemaError::MissingField));
    assert_eq!(Message::from_json(&without(&whole, "content")), Err(SchemaError::MissingField));
    assert_eq!(Message::from_json(&text("hi")), Err(SchemaError::TypeMismatch));
    assert_eq!(
        Message::from_json(&with(&whole, "content", number(1))),
        Err(SchemaError::TypeMismatch)
    );
    assert_eq!(
        Message::from_json(&with(&whole, "role", text("admin"))),
        Err(SchemaError::UnknownVariant)
    );
    assert_eq!(
        Message::from_json(&with(&whole, "file_ids", Json::Array(vec![text("a"), number(1)]))),
        Err(SchemaError::TypeMismatch)
    );
    assert_eq!(
        Message::from_json(&with(&whole, "metadata", object(vec![("k", number(1))]))),
        Err(SchemaError::TypeMismatch)
    );
    assert_eq!(
        Message::from_json(&with(&whole, "metadata", Json::Null)),
        Err(SchemaError::TypeMismatch)
    );
}

#[test]
fn a_kept_message_comes_back_from_its_json() {
    let message = kept_message();
    assert_eq!(MessageObject::from_json(&message.to_json()), Ok(message));
}

#[test]
fn a_kept_message_without_options_comes_back_from_its_json() {
    let mut message = kept_message();
    message.incomplete_details = None;
    message.file_ids = None;
    message.metadata = Metadata::new();
    message.content =
        Content::ImageFile(ImageFileContent { image_file: ImageFile { file_id: "f".to_string() } });
    let json = message.to_json();
    assert_eq!(json.field("incomplete_details"), Some(&Json::Null));
    assert_eq!(json.field("file_ids"), Some(&Json::Null));
    assert_eq!(MessageObject::from_json(&json), Ok(message));
}

#[test]
fn a_kept_message_without_metadata_has_empty_metadata() {
    let json = kept_message_json();
    assert_eq!(json.field("metadata"), None);
    let message = MessageObject::from_json(&json).unwrap();
    assert!(message.metadata.is_empty());
    assert_eq!(message.metadata, Metadata::new());
    assert_eq!(message.incomplete_details, None);
    assert_eq!(message.file_ids, None);
    assert_eq!(message.created, 7);
    assert_eq!(message.role, Role::Owner);
    let explicit = with(&json, "metadata", Json::Object(vec![]));
    assert_eq!(MessageObject::from_json(&explicit), Ok(message));
}

#[test]
fn a_kept_message_needs_each_field_without_a_default() {
    let whole = kept_message_json();
    for name in ["id", "object", "created", "thread_id", "status", "role", "content"] {
        assert_eq!(
            MessageObject::from_json(&without(&whole, name)),
            Err(SchemaError::MissingField),
            "without {}",
            name
        );
    }
    for name in ["incomplete_details", "file_ids", "metadata"] {
        assert!(MessageObject::from_json(&without(&whole, name)).is_ok(), "without {}", name);
    }
}

#[test]
fn the_first_field_that_fails_gives_the_error() {
    let json = object(vec![("id", number(1)), ("created", text("now"))]);
    assert_eq!(MessageObject::from_json(&json), Err(SchemaError::TypeMismatch));
    let json = object(vec![("id", text("m")), ("created", text("now"))]);
    assert_eq!(MessageObject::from_json(&json), Err(SchemaError::MissingField));
}

#[test]
fn created_must_fit_thirty_two_bits() {
    let whole = kept_message_json();
    let at_most = with(&whole, "created", number(4_294_967_295));
    assert_eq!(MessageObject::from_json(&at_most).unwrap().created, u32::MAX);
    let too_much = with(&whole, "created", number(4_294_967_296));
    assert_eq!(MessageObject::from_json(&too_much), Err(SchemaError::OutOfRange));
    let negative = with(&whole, "created", Json::Number(Number::NegInt(-1)));
    assert_eq!(MessageObject::from_json(&negative), Err(SchemaError::OutOfRange));
    let fraction = with(&whole, "created", Json::Number(Number::Float(1.5f64.to_bits())));
    assert_eq!(MessageObject::from_json(&fraction), Err(SchemaError::TypeMismatch));
    let word = with(&whole, "created", text("7"));
    assert_eq!(MessageObject::from_json(&word), Err(SchemaError::TypeMismatch));
}

#[test]
fn content_tagged_text_reads_as_text() {
    let json = object(vec![
        ("type", text("text")),
        ("text", object(vec![("value", text("hello")), ("annotations", Json::Array(vec![]))])),
        ("image_file", object(vec![("file_id", text("decoy"))])),
    ]);
    assert_eq!(
        Content::from_json(&json),
        Ok(Content::Text(TextContent {
            text: Text { value: "hello".to_string(), annotations: vec![] }
        }))
    );
}

#[test]
fn content_tagged_image_file_reads_as_image_file() {
    let json = object(vec![
        ("type", text("image_file")),
        ("image_file", object(vec![("file_id", text("file_7"))])),
        ("text", object(vec![("value", text("decoy")), ("annotations", Json::Array(vec![]))])),
    ]);
    assert_eq!(
        Content::from_json(&json),
        Ok(Content::ImageFile(ImageFileContent {
            image_file: ImageFile { file_id: "file_7".to_string() }
        }))
    );
}

#[test]
fn content_with_an_unknown_tag_is_refused() {
    let body = ("text", object(vec![("value", text("hello")), ("annotations", Json::Array(vec![]))]));
    assert_eq!(
        Content::from_json(&object(vec![("type", text("audio")), body.clone()])),
        Err(SchemaError::UnknownVariant)
    );
    assert_eq!(
        Content::from_json(&object(vec![("type", text("Text")), body.clone()])),
        Err(SchemaError::UnknownVariant)
    );
    assert_eq!(Content::from_json(&object(vec![body.clone()])), Err(SchemaError::MissingField));
    assert_eq!(
        Content::from_json(&object(vec![("type", number(1)), body])),
        Err(SchemaError::TypeMismatch)
    );
    assert_eq!(
        Content::from_json(&object(vec![("type", text("text"))])),
        Err(SchemaError::MissingField)
    );
    assert_eq!(Content::from_json(&Json::Array(vec![])), Err(SchemaError::TypeMismatch));
}

#[test]
fn content_is_written_with_its_tag() {
    let json = text_content().to_json();
    assert_eq!(json.field("type"), Some(&text("text")));
    assert!(json.field("text").is_some());
    assert_eq!(json.field("image_file"), None);
    let image =
        Content::ImageFile(ImageFileContent { image_file: ImageFile { file_id: "f".to_string() } });
    let json = image.to_json();
    assert_eq!(json.field("type"), Some(&text("image_file")));
    assert_eq!(json.field("image_file"), Some(&object(vec![("file_id", text("f"))])));
    assert_eq!(json.field("text"), None);
}

#[test]
fn content_comes_back_from_its_json() {
    let content = text_content();
    assert_eq!(Content::from_json(&content.to_json()), Ok(content));
    let image =
        Content::ImageFile(ImageFileContent { image_file: ImageFile { file_id: "f".to_string() } });
    assert_eq!(Content::from_json(&image.to_json()), Ok(image));
}

#[test]
fn an_annotation_comes_back_from_its_json() {
    let citing = citing_annotation();
    let json = citing.to_json();
    assert_eq!(json.field("type"), Some(&text("file_citation")));
    assert_eq!(json.field("start_index"), Some(&number(4)));
    assert_eq!(json.field("end_index"), Some(&number(7)));
    assert_eq!(
        json.field("file_citation"),
        Some(&object(vec![("file_id", text("file_1")), ("quote", text("to be"))]))
    );
    assert_eq!(Annotation::from_json(&json), Ok(citing));
    let path = path_annotation();
    let json = path.to_json();
    assert_eq!(json.field("type"), Some(&text("file_path")));
    assert_eq!(Annotation::from_json(&json), Ok(path));
}

#[test]
fn an_annotation_is_read_by_its_tag() {
    let both = object(vec![
        ("text", text("x")),
        ("file_citation", object(vec![("file_id", text("a")), ("quote", text("q"))])),
        ("file_path", object(vec![("file_id", text("b"))])),
        ("start_index", number(1)),
        ("end_index", number(2)),
    ]);
    match Annotation::from_json(&with(&both, "type", text("file_citation"))) {
        Ok(Annotation::FileCitation(a)) => assert_eq!(a.file_citation.file_id, "a"),
        other => panic!("no citing annotation: {:?}", other),
    }
    match Annotation::from_json(&with(&both, "type", text("file_path"))) {
        Ok(Annotation::FilePath(a)) => assert_eq!(a.file_path.file_id, "b"),
        other => panic!("no path annotation: {:?}", other),
    }
    assert_eq!(
        Annotation::from_json(&with(&both, "type", text("url"))),
        Err(SchemaError::UnknownVariant)
    );
    assert_eq!(Annotation::from_json(&both), Err(SchemaError::MissingField));
}

#[test]
fn a_text_reads_its_annotations_in_order_and_stops_at_a_bad_one() {
    let good = Text { value: "v".to_string(), annotations: vec![path_annotation(), citing_annotation()] };
    let json = good.to_json();
    assert_eq!(Text::from_json(&json), Ok(good));
    let bad = object(vec![
        ("value", text("v")),
        (
            "annotations",
            Json::Array(vec![path_annotation().to_json(), object(vec![("type", text("nope"))]), number(3)]),
        ),
    ]);
    assert_eq!(Text::from_json(&bad), Err(SchemaError::UnknownVariant));
    let no_array = object(vec![("value", text("v")), ("annotations", object(vec![]))]);
    assert_eq!(Text::from_json(&no_array), Err(SchemaError::TypeMismatch));
    let missing = object(vec![("value", text("v"))]);
    assert_eq!(Text::from_json(&missing), Err(SchemaError::MissingField));
}

#[test]
fn a_thread_comes_back_from_its_json() {
    let thread = Thread {
        id: "thread_1".to_string(),
        object: "thread".to_string(),
        created: 0,
        metadata: vec![
            ("n".to_string(), number(3)),
            ("nested".to_string(), object(vec![("deep", Json::Array(vec![Json::Null, Json::Bool(true)]))])),
        ],
    };
    let json = thread.to_json();
    assert_eq!(json.field("id"), Some(&text("thread_1")));
    assert_eq!(json.field("created"), Some(&number(0)));
    assert_eq!(Thread::from_json(&json), Ok(thread));
}

#[test]
fn a_thread_without_metadata_has_empty_metadata() {
    let json = object(vec![("id", text("t")), ("object", text("thread")), ("created", number(1))]);
    let thread = Thread::from_json(&json).unwrap();
    assert!(thread.metadata.is_empty());
    assert_eq!(
        Thread::from_json(&with(&json, "metadata", number(1))),
        Err(SchemaError::TypeMismatch)
    );
    assert_eq!(
        Thread::from_json(&with(&json, "metadata", Json::Null)),
        Err(SchemaError::TypeMismatch)
    );
    assert_eq!(Thread::from_json(&without(&json, "id")), Err(SchemaError::MissingField));
}

#[test]
fn a_deleted_thread_comes_back_from_its_json() {
    let deleted =
        DeletedThread { id: "t".to_string(), object: "thread.deleted".to_string(), deleted: true };
    let json = deleted.to_json();
    assert_eq!(json.field("deleted"), Some(&Json::Bool(true)));
    assert_eq!(DeletedThread::from_json(&json), Ok(deleted));
    assert_eq!(
        DeletedThread::from_json(&with(&json, "deleted", text("true"))),
        Err(SchemaError::TypeMismatch)
    );
    assert_eq!(
        DeletedThread::from_json(&without(&json, "deleted")),
        Err(SchemaError::MissingField)
    );
}

#[test]
fn a_thread_request_comes_back_from_its_json() {
    let message = Message {
        role: Role::Owner,
        content: "hi".to_string(),
        file_ids: None,
        metadata: Metadata::new(),
    };
    let request = ThreadBuilder {
        messages: vec![message.clone(), message],
        metadata: Some(object(vec![("k", text("v"))])),
    };
    assert_eq!(ThreadBuilder::from_json(&request.to_json()), Ok(request));
    let bare = ThreadBuilder { messages: vec![], metadata: None };
    let json = bare.to_json();
    assert_eq!(json.field("metadata"), Some(&Json::Null));
    assert_eq!(ThreadBuilder::from_json(&json), Ok(bare));
}

#[test]
fn a_later_field_replaces_an_earlier_one_of_its_name() {
    let json = object(vec![
        ("id", number(1)),
        ("object", text("thread.deleted")),
        ("deleted", Json::Bool(false)),
        ("id", text("t")),
        ("deleted", Json::Bool(true)),
    ]);
    assert_eq!(json.field("id"), Some(&text("t")));
    let deleted = DeletedThread::from_json(&json).unwrap();
    assert_eq!(deleted.id, "t");
    assert!(deleted.deleted);
}

#[test]
fn metadata_keeps_the_later_string_of_a_name() {
    let mut metadata = Metadata::new();
    assert!(metadata.is_empty());
    assert_eq!(metadata.get("k"), None);
    metadata.insert("k".to_string(), "old".to_string());
    metadata.insert("other".to_string(), "x".to_string());
    metadata.insert("k".to_string(), "new".to_string());
    assert!(!metadata.is_empty());
    assert_eq!(metadata.get("k"), Some(&"new".to_string()));
    assert_eq!(metadata.get("other"), Some(&"x".to_string()));
    assert_eq!(metadata.get("K"), None);
    let back = Metadata::from_json(&metadata.to_json()).unwrap();
    assert_eq!(back.get("k"), Some(&"new".to_string()));
    assert_eq!(back.get("other"), Some(&"x".to_string()));
}

#[test]
fn metadata_reads_only_the_field_that_counts_for_a_name() {
    let json = object(vec![("k", number(1)), ("k", text("v")), ("l", text("w"))]);
    let metadata = Metadata::from_json(&json).unwrap();
    assert_eq!(metadata.get("k"), Some(&"v".to_string()));
    assert_eq!(metadata.get("l"), Some(&"w".to_string()));
    let json = object(vec![("k", text("v")), ("k", number(1))]);
    assert_eq!(Metadata::from_json(&json), Err(SchemaError::TypeMismatch));
    assert_eq!(Metadata::from_json(&Json::Array(vec![])), Err(SchemaError::TypeMismatch));
    assert_eq!(Metadata::from_json(&object(vec![])), Ok(Metadata::new()));
}

#[test]
fn a_copy_of_a_json_value_equals_it() {
    let value = object(vec![
        ("a", Json::Array(vec![Json::Null, Json::Bool(false), number(1), text("s")])),
        ("b", object(vec![("c", Json::Number(Number::NegInt(-5)))])),
    ]);
    assert_eq!(value.duplicate(), value);
    assert_eq!(value.clone(), value);
}
