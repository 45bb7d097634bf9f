//! The request that each operation on threads sends: one method, one path,
//! and a body where the operation has one.

use crate::json::{Json, JsonView};
use crate::message::{Message, MessageView};
use crate::metadata::{metadata_to_json, Metadata};
use crate::role::Role;
use crate::schema::{no_fields, object_of, put};
use crate::thread::{messages_json, messages_to_json, or_null, Thread};
use vstd::prelude::*;

verus! {

#[derive(Clone, Copy, Debug, PartialEq, Eq, Structural)]
pub enum Method {
    Get,
    Post,
    Delete,
}

/// One request, with its path relative to the base of the service.
#[derive(Clone, Debug, PartialEq, Eq)]
pub struct Request {
    pub method: Method,
    pub path: String,
    pub body: Option<Json>,
}

pub struct RequestView {
    pub method: Method,
    pub path: Seq<char>,
    pub body: Option<JsonView>,
}

impl View for Request {
    type V = RequestView;

    open spec fn view(&self) -> RequestView {
        RequestView { method: self.method, path: self.path@, body: self.body.deep_view() }
    }
}

impl DeepView for Request {
    type V = RequestView;

    open spec fn deep_view(&self) -> RequestView {
        self@
    }
}

/// Where all threads live.
pub open spec fn threads_path() -> Seq<char> {
    "threads"@
}

/// Where the thread `id` lives.
pub open spec fn thread_path(id: Seq<char>) -> Seq<char> {
    "threads/"@ + id
}

/// Where the messages of the thread `id` live.
pub open spec fn messages_path(id: Seq<char>) -> Seq<char> {
    "threads/"@ + id + "/messages"@
}

/// The request that makes a thread of these messages and this metadata.
pub open spec fn create_request(
    messages: Seq<MessageView>,
    metadata: Map<Seq<char>, Seq<char>>,
) -> RequestView {
    RequestView {
        method: Method::Post,
        path: threads_path(),
        body: Some(
            JsonView::Object(
                Map::empty().insert("messages"@, messages_to_json(messages)).insert(
                    "metadata"@,
                    metadata_to_json(metadata),
                ),
            ),
        ),
    }
}

/// The request that fetches the thread `id`.
pub open spec fn fetch_request(id: Seq<char>) -> RequestView {
    RequestView { method: Method::Get, path: thread_path(id), body: None }
}

/// The request that gives the thread `id` this metadata. Its body holds the
/// metadata and nothing else.
pub open spec fn update_request(id: Seq<char>, metadata: Map<Seq<char>, Seq<char>>) -> RequestView {
    RequestView {
        method: Method::Post,
        path: thread_path(id),
        body: Some(
            JsonView::Object(Map::empty().insert("metadata"@, metadata_to_json(metadata))),
        ),
    }
}

/// The request that deletes the thread `id`.
pub open spec fn delete_request(id: Seq<char>) -> RequestView {
    RequestView { method: Method::Delete, path: thread_path(id), body: None }
}

/// The request that appends a message to the thread `id`. File ids that are
/// absent are left out of the body; metadata that is absent is `null`.
pub open spec fn create_message_request(
    id: Seq<char>,
    role: Role,
    content: Seq<char>,
    file_ids: Option<Seq<Seq<char>>>,
    metadata: Option<JsonView>,
) -> RequestView {
    let start = Map::empty().insert("role"@, role.json()).insert(
        "content"@,
        JsonView::String(content),
    );
    let with_files = match file_ids {
        Some(ids) => start.insert("file_ids"@, JsonView::of_strings(ids)),
        None => start,
    };
    RequestView {
        method: Method::Post,
        path: messages_path(id),
        body: Some(JsonView::Object(with_files.insert("metadata"@, or_null(metadata)))),
    }
}

/// An update speaks of the metadata alone: its body has that one field, so
/// nothing in it can touch the messages of the thread.
pub proof fn lemma_update_sends_metadata_only(id: Seq<char>, metadata: Map<Seq<char>, Seq<char>>)
    ensures
        update_request(id, metadata).body matches Some(JsonView::Object(entries))
            && entries.dom() == set!["metadata"@],
{
    let entries = update_request(id, metadata).body->Some_0->Object_0;
    assert(entries.dom() =~= set!["metadata"@]);
}

/// The path of the thread `id`.
fn path_of_thread(id: &str) -> (path: String)
    ensures
        path@ == thread_path(id@),
{
    String::from_str("threads/").concat(id)
}

impl Thread {
    /// The request that creates a thread.
    pub fn create(messages: Vec<Message>, metadata: Metadata) -> (request: Request)
        ensures
            request@ == create_request(messages.deep_view(), metadata@),
    {
        let mut fields = no_fields();
        put(&mut fields, "messages", messages_json(&messages));
        put(&mut fields, "metadata", metadata.to_json());
        Request {
            method: Method::Post,
            path: String::from_str("threads"),
            body: Some(object_of(fields)),
        }
    }

    /// The request that retrieves a thread.
    pub fn from(id: &str) -> (request: Request)
        ensures
            request@ == fetch_request(id@),
    {
        Request { method: Method::Get, path: path_of_thread(id), body: None }
    }

    /// The request that replaces the metadata of a thread.
    pub fn update(id: &str, metadata: Metadata) -> (request: Request)
        ensures
            request@ == update_request(id@, metadata@),
    {
        let mut fields = no_fields();
        put(&mut fields, "metadata", metadata.to_json());
        Request { method: Method::Post, path: path_of_thread(id), body: Some(object_of(fields)) }
    }

    /// The request that deletes a thread, for good.
    pub fn delete(id: &str) -> (request: Request)
        ensures
            request@ == delete_request(id@),
    {
        Request { method: Method::Delete, path: path_of_thread(id), body: None }
    }

    /// The request that appends a message to a thread. However many file ids
    /// there are, they are sent as they are.
    pub fn create_message(
        id: &str,
        role: Role,
        content: &str,
        file_ids: Option<Vec<String>>,
        metadata: Option<Json>,
    ) -> (request: Request)
        ensures
            request@ == create_message_request(
                id@,
                role,
                content@,
                file_ids.deep_view(),
                metadata.deep_view(),
            ),
    {
        let mut fields = no_fields();
        put(&mut fields, "role", role.to_json());
        put(&mut fields, "content", Json::String(String::from_str(content)));
        match &file_ids {
            Some(ids) => {
                put(&mut fields, "file_ids", Json::of_strings(ids));
            },
            None => {},
        }
        let notes = match metadata {
            Some(json) => json,
            None => Json::Null,
        };
        put(&mut fields, "metadata", notes);
        Request {
            method: Method::Post,
            path: path_of_thread(id).concat("/messages"),
            body: Some(object_of(fields)),
        }
    }
}

} // verus!
