//! What comes back from one exchange, and what the caller gets of it.

use crate::error::SchemaError;
use crate::json::{Json, JsonView};
use crate::message::{MessageObject, MessageObjectView};
use crate::thread::{DeletedThread, DeletedThreadView, Thread, ThreadView};
use vstd::prelude::*;

verus! {

/// The service refused the request and said why.
#[derive(Clone, Debug, PartialEq, Eq)]
pub struct ApiError {
    pub code: String,
    pub message: String,
}

pub struct ApiErrorView {
    pub code: Seq<char>,
    pub message: Seq<char>,
}

impl View for ApiError {
    type V = ApiErrorView;

    open spec fn view(&self) -> ApiErrorView {
        ApiErrorView { code: self.code@, message: self.message@ }
    }
}

/// The request never got an answer: no connection, a timeout, a broken
/// channel.
#[derive(Clone, Debug, PartialEq, Eq)]
pub struct TransportError {
    pub reason: String,
}

pub struct TransportErrorView {
    pub reason: Seq<char>,
}

impl View for TransportError {
    type V = TransportErrorView;

    open spec fn view(&self) -> TransportErrorView {
        TransportErrorView { reason: self.reason@ }
    }
}

/// How one exchange ended, as the transport reports it.
#[derive(Clone, Debug, PartialEq, Eq)]
pub enum Outcome {
    /// The service answered with this body.
    Success(Json),
    /// The service answered with an error.
    ApiFailure(ApiError),
    /// The service did not answer.
    TransportFailure(TransportError),
}

pub enum OutcomeView {
    Success(JsonView),
    ApiFailure(ApiErrorView),
    TransportFailure(TransportErrorView),
}

impl View for Outcome {
    type V = OutcomeView;

    open spec fn view(&self) -> OutcomeView {
        match self {
            Outcome::Success(body) => OutcomeView::Success(body@),
            Outcome::ApiFailure(error) => OutcomeView::ApiFailure(error@),
            Outcome::TransportFailure(error) => OutcomeView::TransportFailure(error@),
        }
    }
}

/// Why an operation gave no value. Each is final for the call it ended.
#[derive(Clone, Debug, PartialEq, Eq)]
pub enum ClientError {
    Api(ApiError),
    Schema(SchemaError),
    Transport(TransportError),
}

pub enum ClientErrorView {
    Api(ApiErrorView),
    Schema(SchemaError),
    Transport(TransportErrorView),
}

impl View for ClientError {
    type V = ClientErrorView;

    open spec fn view(&self) -> ClientErrorView {
        match self {
            ClientError::Api(error) => ClientErrorView::Api(error@),
            ClientError::Schema(error) => ClientErrorView::Schema(*error),
            ClientError::Transport(error) => ClientErrorView::Transport(error@),
        }
    }
}

/// A result of an operation, looked at through views.
pub open spec fn view_result<T: DeepView>(result: Result<T, ClientError>) -> Result<
    T::V,
    ClientErrorView,
> {
    match result {
        Ok(value) => Ok(value.deep_view()),
        Err(error) => Err(error@),
    }
}

/// What the caller gets of an outcome: the value that a successful body reads
/// as, or the schema error of reading it; an error of the service or of the
/// transport as it came.
pub open spec fn settled<T>(
    outcome: OutcomeView,
    read: spec_fn(JsonView) -> Result<T, SchemaError>,
) -> Result<T, ClientErrorView> {
    match outcome {
        OutcomeView::Success(body) => match read(body) {
            Ok(value) => Ok(value),
            Err(error) => Err(ClientErrorView::Schema(error)),
        },
        OutcomeView::ApiFailure(error) => Err(ClientErrorView::Api(error)),
        OutcomeView::TransportFailure(error) => Err(ClientErrorView::Transport(error)),
    }
}

impl Thread {
    /// The thread that an exchange gave.
    pub fn from_outcome(outcome: Outcome) -> (result: Result<Thread, ClientError>)
        ensures
            view_result(result) == settled(outcome@, |body: JsonView| ThreadView::from_json(body)),
    {
        match outcome {
            Outcome::Success(body) => match Thread::from_json(&body) {
                Ok(thread) => Ok(thread),
                Err(error) => Err(ClientError::Schema(error)),
            },
            Outcome::ApiFailure(error) => Err(ClientError::Api(error)),
            Outcome::TransportFailure(error) => Err(ClientError::Transport(error)),
        }
    }
}

impl DeletedThread {
    /// The confirmation that an exchange gave.
    pub fn from_outcome(outcome: Outcome) -> (result: Result<DeletedThread, ClientError>)
        ensures
            view_result(result) == settled(
                outcome@,
                |body: JsonView| DeletedThreadView::from_json(body),
            ),
    {
        match outcome {
            Outcome::Success(body) => match DeletedThread::from_json(&body) {
                Ok(deleted) => Ok(deleted),
                Err(error) => Err(ClientError::Schema(error)),
            },
            Outcome::ApiFailure(error) => Err(ClientError::Api(error)),
            Outcome::TransportFailure(error) => Err(ClientError::Transport(error)),
        }
    }
}

impl MessageObject {
    /// The message that an exchange gave.
    pub fn from_outcome(outcome: Outcome) -> (result: Result<MessageObject, ClientError>)
        ensures
            view_result(result) == settled(
                outcome@,
                |body: JsonView| MessageObjectView::from_json(body),
            ),
    {
        match outcome {
            Outcome::Success(body) => match MessageObject::from_json(&body) {
                Ok(message) => Ok(message),
                Err(error) => Err(ClientError::Schema(error)),
            },
            Outcome::ApiFailure(error) => Err(ClientError::Api(error)),
            Outcome::TransportFailure(error) => Err(ClientError::Transport(error)),
        }
    }
}

} // verus!
