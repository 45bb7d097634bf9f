//! Threads: the conversation that the service keeps, the one a caller asks
//! for, and the confirmation that one is gone.

use crate::error::{view_ok, SchemaError};
use crate::json::{copy_fields, entries_of, lemma_array_view, Json, JsonView};
use crate::message::{lemma_message_round_trip, Message, MessageView};
use crate::names::lemma_field_names;
use crate::schema::{
    decode_all, encode_all, lemma_decode_all_encode_all, lemma_decode_all_error_stays,
    lemma_decode_all_step, no_fields, object_of, put,
};
use vstd::prelude::*;

verus! {

/// A conversation as the service keeps it.
#[derive(Clone, Debug, PartialEq, Eq)]
pub struct Thread {
    /// The name that the service gave the thread.
    pub id: String,
    pub object: String,
    pub created: u32,
    /// Free-form notes: names, each with any JSON value. A name given twice
    /// takes the later value.
    pub metadata: Vec<(String, Json)>,
}

pub struct ThreadView {
    pub id: Seq<char>,
    pub object: Seq<char>,
    pub created: u32,
    pub metadata: Map<Seq<char>, JsonView>,
}

impl View for Thread {
    type V = ThreadView;

    open spec fn view(&self) -> ThreadView {
        ThreadView {
            id: self.id@,
            object: self.object@,
            created: self.created,
            metadata: entries_of(self.metadata@),
        }
    }
}

impl DeepView for Thread {
    type V = ThreadView;

    open spec fn deep_view(&self) -> ThreadView {
        self@
    }
}

impl ThreadView {
    pub open spec fn to_json(self) -> JsonView {
        JsonView::Object(
            Map::empty().insert("id"@, JsonView::String(self.id)).insert(
                "object"@,
                JsonView::String(self.object),
            ).insert("created"@, JsonView::of_u32(self.created)).insert(
                "metadata"@,
                JsonView::Object(self.metadata),
            ),
        )
    }

    pub open spec fn from_json(json: JsonView) -> Result<ThreadView, SchemaError> {
        let id = json.string_field("id"@);
        let object = json.string_field("object"@);
        let created = json.u32_field("created"@);
        let metadata = json.object_field("metadata"@);
        if id is Err {
            Err(id->Err_0)
        } else if object is Err {
            Err(object->Err_0)
        } else if created is Err {
            Err(created->Err_0)
        } else if metadata is Err {
            Err(metadata->Err_0)
        } else {
            Ok(
                ThreadView {
                    id: id->Ok_0,
                    object: object->Ok_0,
                    created: created->Ok_0,
                    metadata: metadata->Ok_0,
                },
            )
        }
    }
}

impl Thread {
    pub fn to_json(&self) -> (json: Json)
        ensures
            json@ == self@.to_json(),
    {
        let mut fields = no_fields();
        put(&mut fields, "id", Json::String(self.id.clone()));
        put(&mut fields, "object", Json::String(self.object.clone()));
        put(&mut fields, "created", Json::of_u32(self.created));
        put(&mut fields, "metadata", object_of(copy_fields(&self.metadata)));
        object_of(fields)
    }

    pub fn from_json(json: &Json) -> (result: Result<Thread, SchemaError>)
        ensures
            view_ok(result) == ThreadView::from_json(json@),
    {
        let id = json.string_field("id")?;
        let object = json.string_field("object")?;
        let created = json.u32_field("created")?;
        let metadata = json.object_field("metadata")?;
        Ok(Thread { id, object, created, metadata })
    }
}

/// Reading a thread that was written gives it back.
pub proof fn lemma_thread_round_trip(thread: ThreadView)
    ensures
        ThreadView::from_json(thread.to_json()) == Ok::<ThreadView, SchemaError>(thread),
{
    lemma_field_names();
}

/// A thread without a `metadata` field reads as one with no metadata: leaving
/// the field out is the same as giving an empty object.
pub proof fn lemma_thread_default_metadata(entries: Map<Seq<char>, JsonView>)
    requires
        !entries.dom().contains("metadata"@),
    ensures
        ThreadView::from_json(JsonView::Object(entries)) == ThreadView::from_json(
            JsonView::Object(entries.insert("metadata"@, JsonView::Object(Map::empty()))),
        ),
        ThreadView::from_json(JsonView::Object(entries)) matches Ok(thread) ==> thread.metadata
            == Map::<Seq<char>, JsonView>::empty(),
{
    lemma_field_names();
}

/// Messages on the wire: an array, one object each.
pub open spec fn messages_to_json(messages: Seq<MessageView>) -> JsonView {
    JsonView::Array(encode_all(messages, |message: MessageView| message.to_json()))
}

/// The messages that the items of an array stand for.
pub open spec fn messages_in(items: Seq<JsonView>) -> Result<Seq<MessageView>, SchemaError> {
    decode_all(items, |item: JsonView| MessageView::from_json(item))
}

/// The array of these messages.
pub fn messages_json(messages: &Vec<Message>) -> (json: Json)
    ensures
        json@ == messages_to_json(messages.deep_view()),
{
    let mut items: Vec<Json> = Vec::new();
    let mut i: usize = 0;
    while i < messages.len()
        invariant
            i <= messages.len(),
            items.len() == i,
            forall|j: int| 0 <= j < i ==> items@[j]@ == messages@[j]@.to_json(),
        decreases messages.len() - i,
    {
        items.push(messages[i].to_json());
        i += 1;
    }
    proof {
        lemma_array_view(items);
        assert(Json::Array(items)@->Array_0 =~= messages_to_json(messages.deep_view())->Array_0);
    }
    Json::Array(items)
}

/// The messages that the items of an array stand for.
pub fn messages_from(items: &Vec<Json>) -> (result: Result<Vec<Message>, SchemaError>)
    ensures
        view_ok(result) == messages_in(items.deep_view()),
{
    let ghost views = items.deep_view();
    let mut messages: Vec<Message> = Vec::new();
    let mut i: usize = 0;
    assert(views.take(0) =~= Seq::empty() && messages.deep_view() =~= Seq::empty());
    while i < items.len()
        invariant
            i <= items.len(),
            views == items.deep_view(),
            messages_in(views.take(i as int)) == Ok::<Seq<MessageView>, SchemaError>(
                messages.deep_view(),
            ),
        decreases items.len() - i,
    {
        proof {
            lemma_decode_all_step(views, |item: JsonView| MessageView::from_json(item), i as int);
        }
        match Message::from_json(&items[i]) {
            Ok(message) => {
                let ghost before = messages.deep_view();
                messages.push(message);
                assert(messages.deep_view() =~= before.push(message@));
            },
            Err(error) => {
                proof {
                    lemma_decode_all_error_stays(
                        views,
                        |item: JsonView| MessageView::from_json(item),
                        i as int + 1,
                    );
                }
                return Err(error);
            },
        }
        i += 1;
    }
    assert(views.take(i as int) =~= views);
    Ok(messages)
}

/// Reading messages that were written gives them back.
pub proof fn lemma_messages_round_trip(messages: Seq<MessageView>)
    ensures
        messages_to_json(messages) is Array,
        messages_in(messages_to_json(messages)->Array_0) == Ok::<Seq<MessageView>, SchemaError>(
            messages,
        ),
{
    assert forall|i: int| 0 <= i < messages.len() implies MessageView::from_json(
        (#[trigger] messages[i]).to_json(),
    ) == Ok::<MessageView, SchemaError>(messages[i]) by {
        lemma_message_round_trip(messages[i]);
    }
    lemma_decode_all_encode_all(
        messages,
        |message: MessageView| message.to_json(),
        |item: JsonView| MessageView::from_json(item),
    );
}

/// What a caller asks a new thread to start with.
#[derive(Clone, Debug, PartialEq, Eq)]
pub struct ThreadBuilder {
    pub messages: Vec<Message>,
    /// Free-form notes: any JSON value, or none.
    pub metadata: Option<Json>,
}

pub struct ThreadBuilderView {
    pub messages: Seq<MessageView>,
    pub metadata: Option<JsonView>,
}

impl View for ThreadBuilder {
    type V = ThreadBuilderView;

    open spec fn view(&self) -> ThreadBuilderView {
        ThreadBuilderView {
            messages: self.messages.deep_view(),
            metadata: self.metadata.deep_view(),
        }
    }
}

impl DeepView for ThreadBuilder {
    type V = ThreadBuilderView;

    open spec fn deep_view(&self) -> ThreadBuilderView {
        self@
    }
}

/// A value that may be absent; `null` where it is.
pub open spec fn or_null(value: Option<JsonView>) -> JsonView {
    match value {
        Some(json) => json,
        None => JsonView::Null,
    }
}

impl ThreadBuilderView {
    /// The request on the wire. Metadata that is absent is `null`.
    pub open spec fn to_json(self) -> JsonView {
        JsonView::Object(
            Map::empty().insert("messages"@, messages_to_json(self.messages)).insert(
                "metadata"@,
                or_null(self.metadata),
            ),
        )
    }

    pub open spec fn from_json(json: JsonView) -> Result<ThreadBuilderView, SchemaError> {
        let messages = match json.required("messages"@) {
            Err(error) => Err(error),
            Ok(array) => match array.as_items() {
                Err(error) => Err(error),
                Ok(items) => messages_in(items),
            },
        };
        let metadata = json.optional("metadata"@);
        if messages is Err {
            Err(messages->Err_0)
        } else if metadata is Err {
            Err(metadata->Err_0)
        } else {
            Ok(ThreadBuilderView { messages: messages->Ok_0, metadata: metadata->Ok_0 })
        }
    }
}

impl ThreadBuilder {
    pub fn to_json(&self) -> (json: Json)
        ensures
            json@ == self@.to_json(),
    {
        let metadata = match &self.metadata {
            Some(json) => json.clone(),
            None => Json::Null,
        };
        let mut fields = no_fields();
        put(&mut fields, "messages", messages_json(&self.messages));
        put(&mut fields, "metadata", metadata);
        object_of(fields)
    }

    pub fn from_json(json: &Json) -> (result: Result<ThreadBuilder, SchemaError>)
        ensures
            view_ok(result) == ThreadBuilderView::from_json(json@),
    {
        let messages = messages_from(json.required("messages")?.as_items()?)?;
        let metadata = match json.optional("metadata")? {
            Some(value) => Some(value.clone()),
            None => None,
        };
        Ok(ThreadBuilder { messages, metadata })
    }
}

/// Reading a thread request that was written gives it back, unless its
/// metadata is a `null` that is present: on the wire that is the same as none.
pub proof fn lemma_thread_builder_round_trip(builder: ThreadBuilderView)
    requires
        builder.metadata != Some(JsonView::Null),
    ensures
        ThreadBuilderView::from_json(builder.to_json()) == Ok::<ThreadBuilderView, SchemaError>(
            builder,
        ),
{
    lemma_field_names();
    lemma_messages_round_trip(builder.messages);
}

/// The confirmation that a thread is gone.
#[derive(Clone, Debug, PartialEq, Eq)]
pub struct DeletedThread {
    pub id: String,
    pub object: String,
    pub deleted: bool,
}

pub struct DeletedThreadView {
    pub id: Seq<char>,
    pub object: Seq<char>,
    pub deleted: bool,
}

impl View for DeletedThread {
    type V = DeletedThreadView;

    open spec fn view(&self) -> DeletedThreadView {
        DeletedThreadView { id: self.id@, object: self.object@, deleted: self.deleted }
    }
}

impl DeepView for DeletedThread {
    type V = DeletedThreadView;

    open spec fn deep_view(&self) -> DeletedThreadView {
        self@
    }
}

impl DeletedThreadView {
    pub open spec fn to_json(self) -> JsonView {
        JsonView::Object(
            Map::empty().insert("id"@, JsonView::String(self.id)).insert(
                "object"@,
                JsonView::String(self.object),
            ).insert("deleted"@, JsonView::Bool(self.deleted)),
        )
    }

    pub open spec fn from_json(json: JsonView) -> Result<DeletedThreadView, SchemaError> {
        let id = json.string_field("id"@);
        let object = json.string_field("object"@);
        let deleted = json.bool_field("deleted"@);
        if id is Err {
            Err(id->Err_0)
        } else if object is Err {
            Err(object->Err_0)
        } else if deleted is Err {
            Err(deleted->Err_0)
        } else {
            Ok(DeletedThreadView { id: id->Ok_0, object: object->Ok_0, deleted: deleted->Ok_0 })
        }
    }
}

impl DeletedThread {
    pub fn to_json(&self) -> (json: Json)
        ensures
            json@ == self@.to_json(),
    {
        let mut fields = no_fields();
        put(&mut fields, "id", Json::String(self.id.clone()));
        put(&mut fields, "object", Json::String(self.object.clone()));
        put(&mut fields, "deleted", Json::Bool(self.deleted));
        object_of(fields)
    }

    pub fn from_json(json: &Json) -> (result: Result<DeletedThread, SchemaError>)
        ensures
            view_ok(result) == DeletedThreadView::from_json(json@),
    {
        let id = json.string_field("id")?;
        let object = json.string_field("object")?;
        let deleted = json.bool_field("deleted")?;
        Ok(DeletedThread { id, object, deleted })
    }
}

/// Reading a confirmation that was written gives it back.
pub proof fn lemma_deleted_thread_round_trip(deleted: DeletedThreadView)
    ensures
        DeletedThreadView::from_json(deleted.to_json()) == Ok::<DeletedThreadView, SchemaError>(
            deleted,
        ),
{
    lemma_field_names();
}

} // verus!
