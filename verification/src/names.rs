//! The field names of the wire format, told apart.

use vstd::prelude::*;

verus! {

/// Length and leading letters of each field name: enough to tell any two of
/// them apart.
pub proof fn lemma_field_names()
    ensures
        "id"@.len() == 2,
        "role"@.len() == 4 && "role"@[0] == 'r',
        "type"@.len() == 4 && "type"@[0] == 't' && "type"@[1] == 'y',
        "text"@.len() == 4 && "text"@[0] == 't' && "text"@[1] == 'e',
        "value"@.len() == 5 && "value"@[0] == 'v',
        "quote"@.len() == 5 && "quote"@[0] == 'q',
        "object"@.len() == 6 && "object"@[0] == 'o',
        "status"@.len() == 6 && "status"@[0] == 's',
        "reason"@.len() == 6 && "reason"@[0] == 'r',
        "created"@.len() == 7 && "created"@[0] == 'c' && "created"@[1] == 'r',
        "content"@.len() == 7 && "content"@[0] == 'c' && "content"@[1] == 'o',
        "deleted"@.len() == 7 && "deleted"@[0] == 'd',
        "file_id"@.len() == 7 && "file_id"@[0] == 'f',
        "metadata"@.len() == 8 && "metadata"@[0] == 'm' && "metadata"@[2] == 't',
        "messages"@.len() == 8 && "messages"@[0] == 'm' && "messages"@[2] == 's',
        "file_ids"@.len() == 8 && "file_ids"@[0] == 'f',
        "thread_id"@.len() == 9 && "thread_id"@[0] == 't',
        "file_path"@.len() == 9 && "file_path"@[0] == 'f',
        "end_index"@.len() == 9 && "end_index"@[0] == 'e',
        "image_file"@.len() == 10,
        "start_index"@.len() == 11 && "start_index"@[0] == 's',
        "annotations"@.len() == 11 && "annotations"@[0] == 'a',
        "file_citation"@.len() == 13,
        "incomplete_details"@.len() == 18,
{
    reveal_strlit("id");
    reveal_strlit("role");
    reveal_strlit("type");
    reveal_strlit("text");
    reveal_strlit("value");
    reveal_strlit("quote");
    reveal_strlit("object");
    reveal_strlit("status");
    reveal_strlit("reason");
    reveal_strlit("created");
    reveal_strlit("content");
    reveal_strlit("deleted");
    reveal_strlit("file_id");
    reveal_strlit("metadata");
    reveal_strlit("messages");
    reveal_strlit("file_ids");
    reveal_strlit("thread_id");
    reveal_strlit("file_path");
    reveal_strlit("end_index");
    reveal_strlit("image_file");
    reveal_strlit("start_index");
    reveal_strlit("annotations");
    reveal_strlit("file_citation");
    reveal_strlit("incomplete_details");
}

} // verus!
