//! Threads and messages of a conversational assistant service: the records
//! that go over the wire, how each is written as JSON and read back, the
//! request that each operation sends, and what a caller gets of the answer.
//!
//! Nothing here touches the network. An operation is a request to hand to a
//! transport, and an [`Outcome`] to hand back.

pub mod annotation;
pub mod content;
pub mod error;
pub mod fields;
pub mod json;
pub mod message;
pub mod metadata;
pub mod names;
pub mod request;
pub mod response;
pub mod role;
pub mod schema;
pub mod thread;

pub use annotation::{
    Annotation, FileCitation, FileCitationAnnotation, FilePath, FilePathAnnotation,
};
pub use content::{Content, ImageFile, ImageFileContent, Text, TextContent};
pub use error::SchemaError;
pub use json::{Json, Number};
pub use message::{IncompleteDetails, Message, MessageObject};
pub use metadata::Metadata;
pub use request::{Method, Request};
pub use response::{ApiError, ClientError, Outcome, TransportError};
pub use role::Role;
pub use thread::{DeletedThread, Thread, ThreadBuilder};
