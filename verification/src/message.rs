//! Messages: the one a caller submits, and the one the service keeps.

use crate::content::{lemma_content_round_trip, Content, ContentView};
use crate::error::{view_ok, SchemaError};
use crate::json::{Json, JsonView};
use crate::metadata::{lemma_metadata_round_trip, metadata_field, metadata_to_json, Metadata};
use crate::names::lemma_field_names;
use crate::role::{lemma_role_round_trip, Role};
use crate::schema::{lemma_strings_round_trip, no_fields, object_of, put};
use vstd::prelude::*;

verus! {

/// One turn of a conversation, as a caller submits it.
#[derive(Clone, Debug, PartialEq, Eq)]
pub struct Message {
    /// The author of the message.
    pub role: Role,
    /// The text of the message.
    pub content: String,
    /// The files that the message should use. The service takes ten at most;
    /// more are for the service to refuse.
    pub file_ids: Option<Vec<String>>,
    /// Notes on the message.
    pub metadata: Metadata,
}

pub struct MessageView {
    pub role: Role,
    pub content: Seq<char>,
    pub file_ids: Option<Seq<Seq<char>>>,
    pub metadata: Map<Seq<char>, Seq<char>>,
}

impl View for Message {
    type V = MessageView;

    open spec fn view(&self) -> MessageView {
        MessageView {
            role: self.role,
            content: self.content@,
            file_ids: self.file_ids.deep_view(),
            metadata: self.metadata@,
        }
    }
}

impl DeepView for Message {
    type V = MessageView;

    open spec fn deep_view(&self) -> MessageView {
        self@
    }
}

impl MessageView {
    /// The message on the wire. File ids that are absent are left out.
    pub open spec fn to_json(self) -> JsonView {
        let start = Map::empty().insert("role"@, self.role.json()).insert(
            "content"@,
            JsonView::String(self.content),
        );
        let with_files = match self.file_ids {
            Some(ids) => start.insert("file_ids"@, JsonView::of_strings(ids)),
            None => start,
        };
        JsonView::Object(with_files.insert("metadata"@, metadata_to_json(self.metadata)))
    }

    pub open spec fn from_json(json: JsonView) -> Result<MessageView, SchemaError> {
        let role = match json.required("role"@) {
            Ok(value) => Role::of_json(value),
            Err(error) => Err(error),
        };
        let content = json.string_field("content"@);
        let file_ids = json.optional_strings_field("file_ids"@);
        let metadata = metadata_field(json, "metadata"@);
        if role is Err {
            Err(role->Err_0)
        } else if content is Err {
            Err(content->Err_0)
        } else if file_ids is Err {
            Err(file_ids->Err_0)
        } else if metadata is Err {
            Err(metadata->Err_0)
        } else {
            Ok(
                MessageView {
                    role: role->Ok_0,
                    content: content->Ok_0,
                    file_ids: file_ids->Ok_0,
                    metadata: metadata->Ok_0,
                },
            )
        }
    }
}

impl Message {
    pub fn to_json(&self) -> (json: Json)
        ensures
            json@ == self@.to_json(),
    {
        let mut fields = no_fields();
        put(&mut fields, "role", self.role.to_json());
        put(&mut fields, "content", Json::String(self.content.clone()));
        match &self.file_ids {
            Some(ids) => {
                put(&mut fields, "file_ids", Json::of_strings(ids));
            },
            None => {},
        }
        put(&mut fields, "metadata", self.metadata.to_json());
        object_of(fields)
    }

    pub fn from_json(json: &Json) -> (result: Result<Message, SchemaError>)
        ensures
            view_ok(result) == MessageView::from_json(json@),
    {
        let role = Role::from_json(json.required("role")?)?;
        let content = json.string_field("content")?;
        let file_ids = json.optional_strings_field("file_ids")?;
        let metadata = Metadata::field_of(json, "metadata")?;
        Ok(Message { role, content, file_ids, metadata })
    }
}

/// Reading a message that was written gives it back.
pub proof fn lemma_message_round_trip(message: MessageView)
    ensures
        MessageView::from_json(message.to_json()) == Ok::<MessageView, SchemaError>(message),
{
    lemma_field_names();
    lemma_role_round_trip(message.role);
    lemma_metadata_round_trip(message.metadata);
    if let Some(ids) = message.file_ids {
        lemma_strings_round_trip(ids);
    }
}

/// Why the service left a message unfinished.
#[derive(Clone, Debug, PartialEq, Eq)]
pub struct IncompleteDetails {
    pub reason: String,
}

pub struct IncompleteDetailsView {
    pub reason: Seq<char>,
}

impl View for IncompleteDetails {
    type V = IncompleteDetailsView;

    open spec fn view(&self) -> IncompleteDetailsView {
        IncompleteDetailsView { reason: self.reason@ }
    }
}

impl DeepView for IncompleteDetails {
    type V = IncompleteDetailsView;

    open spec fn deep_view(&self) -> IncompleteDetailsView {
        self@
    }
}

impl IncompleteDetailsView {
    pub open spec fn to_json(self) -> JsonView {
        JsonView::Object(Map::empty().insert("reason"@, JsonView::String(self.reason)))
    }

    pub open spec fn from_json(json: JsonView) -> Result<IncompleteDetailsView, SchemaError> {
        match json.string_field("reason"@) {
            Ok(reason) => Ok(IncompleteDetailsView { reason }),
            Err(error) => Err(error),
        }
    }
}

impl IncompleteDetails {
    pub fn to_json(&self) -> (json: Json)
        ensures
            json@ == self@.to_json(),
    {
        let mut fields = no_fields();
        put(&mut fields, "reason", Json::String(self.reason.clone()));
        object_of(fields)
    }

    pub fn from_json(json: &Json) -> (result: Result<IncompleteDetails, SchemaError>)
        ensures
            view_ok(result) == IncompleteDetailsView::from_json(json@),
    {
        let reason = json.string_field("reason")?;
        Ok(IncompleteDetails { reason })
    }
}

/// Reading details that were written gives them back.
pub proof fn lemma_incomplete_details_round_trip(details: IncompleteDetailsView)
    ensures
        IncompleteDetailsView::from_json(details.to_json()) == Ok::<
            IncompleteDetailsView,
            SchemaError,
        >(details),
{
}

/// A message as the service keeps it and hands it back.
#[derive(Clone, Debug, PartialEq, Eq)]
pub struct MessageObject {
    pub id: String,
    pub object: String,
    pub created: u32,
    pub thread_id: String,
    pub status: String,
    pub incomplete_details: Option<IncompleteDetails>,
    pub role: Role,
    pub content: Content,
    pub file_ids: Option<Vec<String>>,
    pub metadata: Metadata,
}

pub struct MessageObjectView {
    pub id: Seq<char>,
    pub object: Seq<char>,
    pub created: u32,
    pub thread_id: Seq<char>,
    pub status: Seq<char>,
    pub incomplete_details: Option<IncompleteDetailsView>,
    pub role: Role,
    pub content: ContentView,
    pub file_ids: Option<Seq<Seq<char>>>,
    pub metadata: Map<Seq<char>, Seq<char>>,
}

impl View for MessageObject {
    type V = MessageObjectView;

    open spec fn view(&self) -> MessageObjectView {
        MessageObjectView {
            id: self.id@,
            object: self.object@,
            created: self.created,
            thread_id: self.thread_id@,
            status: self.status@,
            incomplete_details: self.incomplete_details.deep_view(),
            role: self.role,
            content: self.content@,
            file_ids: self.file_ids.deep_view(),
            metadata: self.metadata@,
        }
    }
}

impl DeepView for MessageObject {
    type V = MessageObjectView;

    open spec fn deep_view(&self) -> MessageObjectView {
        self@
    }
}

/// Details that may be absent; `null` where they are.
pub open spec fn details_to_json(details: Option<IncompleteDetailsView>) -> JsonView {
    match details {
        Some(details) => details.to_json(),
        None => JsonView::Null,
    }
}

/// The details under `name`; none where the field is left out or `null`.
pub open spec fn details_field(json: JsonView, name: Seq<char>) -> Result<
    Option<IncompleteDetailsView>,
    SchemaError,
> {
    match json.optional(name) {
        Err(error) => Err(error),
        Ok(None) => Ok(None),
        Ok(Some(value)) => match IncompleteDetailsView::from_json(value) {
            Ok(details) => Ok(Some(details)),
            Err(error) => Err(error),
        },
    }
}

/// File ids that may be absent; `null` where they are.
pub open spec fn file_ids_or_null(file_ids: Option<Seq<Seq<char>>>) -> JsonView {
    match file_ids {
        Some(ids) => JsonView::of_strings(ids),
        None => JsonView::Null,
    }
}

impl MessageObjectView {
    /// The message on the wire. Details and file ids that are absent are
    /// `null`.
    pub open spec fn to_json(self) -> JsonView {
        JsonView::Object(
            Map::empty().insert("id"@, JsonView::String(self.id)).insert(
                "object"@,
                JsonView::String(self.object),
            ).insert("created"@, JsonView::of_u32(self.created)).insert(
                "thread_id"@,
                JsonView::String(self.thread_id),
            ).insert("status"@, JsonView::String(self.status)).insert(
                "incomplete_details"@,
                details_to_json(self.incomplete_details),
            ).insert("role"@, self.role.json()).insert("content"@, self.content.to_json()).insert(
                "file_ids"@,
                file_ids_or_null(self.file_ids),
            ).insert("metadata"@, metadata_to_json(self.metadata)),
        )
    }

    pub open spec fn from_json(json: JsonView) -> Result<MessageObjectView, SchemaError> {
        let id = json.string_field("id"@);
        let object = json.string_field("object"@);
        let created = json.u32_field("created"@);
        let thread_id = json.string_field("thread_id"@);
        let status = json.string_field("status"@);
        let incomplete_details = details_field(json, "incomplete_details"@);
        let role = match json.required("role"@) {
            Ok(value) => Role::of_json(value),
            Err(error) => Err(error),
        };
        let content = match json.required("content"@) {
            Ok(value) => ContentView::from_json(value),
            Err(error) => Err(error),
        };
        let file_ids = json.optional_strings_field("file_ids"@);
        let metadata = metadata_field(json, "metadata"@);
        if id is Err {
            Err(id->Err_0)
        } else if object is Err {
            Err(object->Err_0)
        } else if created is Err {
            Err(created->Err_0)
        } else if thread_id is Err {
            Err(thread_id->Err_0)
        } else if status is Err {
            Err(status->Err_0)
        } else if incomplete_details is Err {
            Err(incomplete_details->Err_0)
        } else if role is Err {
            Err(role->Err_0)
        } else if content is Err {
            Err(content->Err_0)
        } else if file_ids is Err {
            Err(file_ids->Err_0)
        } else if metadata is Err {
            Err(metadata->Err_0)
        } else {
            Ok(
                MessageObjectView {
                    id: id->Ok_0,
                    object: object->Ok_0,
                    created: created->Ok_0,
                    thread_id: thread_id->Ok_0,
                    status: status->Ok_0,
                    incomplete_details: incomplete_details->Ok_0,
                    role: role->Ok_0,
                    content: content->Ok_0,
                    file_ids: file_ids->Ok_0,
                    metadata: metadata->Ok_0,
                },
            )
        }
    }
}

impl MessageObject {
    pub fn to_json(&self) -> (json: Json)
        ensures
            json@ == self@.to_json(),
    {
        let details = match &self.incomplete_details {
            Some(details) => details.to_json(),
            None => Json::Null,
        };
        let file_ids = match &self.file_ids {
            Some(ids) => Json::of_strings(ids),
            None => Json::Null,
        };
        let mut fields = no_fields();
        put(&mut fields, "id", Json::String(self.id.clone()));
        put(&mut fields, "object", Json::String(self.object.clone()));
        put(&mut fields, "created", Json::of_u32(self.created));
        put(&mut fields, "thread_id", Json::String(self.thread_id.clone()));
        put(&mut fields, "status", Json::String(self.status.clone()));
        put(&mut fields, "incomplete_details", details);
        put(&mut fields, "role", self.role.to_json());
        put(&mut fields, "content", self.content.to_json());
        put(&mut fields, "file_ids", file_ids);
        put(&mut fields, "metadata", self.metadata.to_json());
        object_of(fields)
    }

    pub fn from_json(json: &Json) -> (result: Result<MessageObject, SchemaError>)
        ensures
            view_ok(result) == MessageObjectView::from_json(json@),
    {
        let id = json.string_field("id")?;
        let object = json.string_field("object")?;
        let created = json.u32_field("created")?;
        let thread_id = json.string_field("thread_id")?;
        let status = json.string_field("status")?;
        let incomplete_details = match json.optional("incomplete_details")? {
            None => None,
            Some(value) => Some(IncompleteDetails::from_json(value)?),
        };
        let role = Role::from_json(json.required("role")?)?;
        let content = Content::from_json(json.required("content")?)?;
        let file_ids = json.optional_strings_field("file_ids")?;
        let metadata = Metadata::field_of(json, "metadata")?;
        Ok(
            MessageObject {
                id,
                object,
                created,
                thread_id,
                status,
                incomplete_details,
                role,
                content,
                file_ids,
                metadata,
            },
        )
    }
}

/// Reading a kept message that was written gives it back.
pub proof fn lemma_message_object_round_trip(message: MessageObjectView)
    ensures
        MessageObjectView::from_json(message.to_json()) == Ok::<MessageObjectView, SchemaError>(
            message,
        ),
{
    lemma_field_names();
    lemma_role_round_trip(message.role);
    lemma_content_round_trip(message.content);
    lemma_metadata_round_trip(message.metadata);
    if let Some(ids) = message.file_ids {
        lemma_strings_round_trip(ids);
    }
    if let Some(details) = message.incomplete_details {
        lemma_incomplete_details_round_trip(details);
    }
}

/// A kept message without a `metadata` field reads as one with no metadata:
/// leaving the field out is the same as giving an empty object, and never an
/// error of its own.
pub proof fn lemma_message_object_default_metadata(entries: Map<Seq<char>, JsonView>)
    requires
        !entries.dom().contains("metadata"@),
    ensures
        MessageObjectView::from_json(JsonView::Object(entries)) == MessageObjectView::from_json(
            JsonView::Object(entries.insert("metadata"@, JsonView::Object(Map::empty()))),
        ),
        MessageObjectView::from_json(JsonView::Object(entries)) matches Ok(message)
            ==> message.metadata == Map::<Seq<char>, Seq<char>>::empty(),
        metadata_field(JsonView::Object(entries), "metadata"@) == Ok::<
            Map<Seq<char>, Seq<char>>,
            SchemaError,
        >(Map::empty()),
{
    lemma_field_names();
    lemma_metadata_round_trip(Map::empty());
    assert(metadata_to_json(Map::empty()) == JsonView::Object(Map::<Seq<char>, JsonView>::empty()))
        by {
        assert(metadata_to_json(Map::empty())->Object_0 =~= Map::<Seq<char>, JsonView>::empty());
    }
}

} // verus!
