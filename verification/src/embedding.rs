//! What a caller of the embedding service can be told, and how the answer to
//! one request is settled.

use vstd::prelude::*;
use vstd::string::StringExecFns;

verus! {

/// How many requests may wait for the worker at once.
pub const QUEUE_CAPACITY: usize = 100;

/// The ways in which a request, or the service as a whole, can fail.
#[derive(Debug, PartialEq, Eq)]
pub enum EmbeddingGeneratorError {
    /// No model is registered under the requested name.
    ModelNotFound(String),
    /// The model was found and failed on the given inputs.
    ModelError(String),
    /// A configured model could not be brought up; the service never serves.
    ModelLoadingError(String),
    /// The service has shut down under a waiting caller.
    InternalError(String),
}

/// An error as contracts see it: its kind, with its text as a sequence of
/// characters.
pub enum EmbeddingGeneratorErrorView {
    ModelNotFound(Seq<char>),
    ModelError(Seq<char>),
    ModelLoadingError(Seq<char>),
    InternalError(Seq<char>),
}

impl View for EmbeddingGeneratorError {
    type V = EmbeddingGeneratorErrorView;

    open spec fn view(&self) -> EmbeddingGeneratorErrorView {
        match self {
            EmbeddingGeneratorError::ModelNotFound(name) => EmbeddingGeneratorErrorView::ModelNotFound(name@),
            EmbeddingGeneratorError::ModelError(detail) => EmbeddingGeneratorErrorView::ModelError(detail@),
            EmbeddingGeneratorError::ModelLoadingError(detail) => EmbeddingGeneratorErrorView::ModelLoadingError(detail@),
            EmbeddingGeneratorError::InternalError(detail) => EmbeddingGeneratorErrorView::InternalError(detail@),
        }
    }
}

impl EmbeddingGeneratorErrorView {
    /// The text that the error carries: a model name or a diagnostic.
    pub open spec fn detail(self) -> Seq<char> {
        match self {
            EmbeddingGeneratorErrorView::ModelNotFound(name) => name,
            EmbeddingGeneratorErrorView::ModelError(detail) => detail,
            EmbeddingGeneratorErrorView::ModelLoadingError(detail) => detail,
            EmbeddingGeneratorErrorView::InternalError(detail) => detail,
        }
    }

    /// What stands before the carried text in the error's message.
    pub open spec fn prefix(self) -> Seq<char> {
        match self {
            EmbeddingGeneratorErrorView::ModelNotFound(_) => "model `"@,
            EmbeddingGeneratorErrorView::ModelError(_) => "model inference error: `"@,
            EmbeddingGeneratorErrorView::ModelLoadingError(_) => "model loading error: `"@,
            EmbeddingGeneratorErrorView::InternalError(_) => "internal error: `"@,
        }
    }

    /// What stands behind the carried text in the error's message.
    pub open spec fn suffix(self) -> Seq<char> {
        match self {
            EmbeddingGeneratorErrorView::ModelNotFound(_) => "` not found"@,
            _ => "`"@,
        }
    }

    /// The message a person reads.
    pub open spec fn message(self) -> Seq<char> {
        self.prefix() + self.detail() + self.suffix()
    }

    /// Whether the service is gone for good, so that trying again is useless.
    pub open spec fn is_permanent(self) -> bool {
        self is ModelLoadingError || self is InternalError
    }
}

impl EmbeddingGeneratorError {
    /// The text that the error carries: a model name or a diagnostic.
    pub fn detail(&self) -> (text: &String)
        ensures
            text@ == self@.detail(),
    {
        match self {
            EmbeddingGeneratorError::ModelNotFound(name) => name,
            EmbeddingGeneratorError::ModelError(detail) => detail,
            EmbeddingGeneratorError::ModelLoadingError(detail) => detail,
            EmbeddingGeneratorError::InternalError(detail) => detail,
        }
    }

    /// The message a person reads, such as ``model `x` not found``.
    pub fn message(&self) -> (text: String)
        ensures
            text@ == self@.message(),
    {
        let (prefix, suffix) = match self {
            EmbeddingGeneratorError::ModelNotFound(_) => ("model `", "` not found"),
            EmbeddingGeneratorError::ModelError(_) => ("model inference error: `", "`"),
            EmbeddingGeneratorError::ModelLoadingError(_) => ("model loading error: `", "`"),
            EmbeddingGeneratorError::InternalError(_) => ("internal error: `", "`"),
        };
        let mut text = String::from_str(prefix);
        text.append(self.detail().as_str());
        text.append(suffix);
        text
    }

    /// Whether the service is gone for good, so that trying again is useless.
    pub fn is_permanent(&self) -> (permanent: bool)
        ensures
            permanent == self@.is_permanent(),
    {
        match self {
            EmbeddingGeneratorError::ModelLoadingError(_) => true,
            EmbeddingGeneratorError::InternalError(_) => true,
            _ => false,
        }
    }
}

/// The error of a configuration whose architecture the service cannot load.
pub open spec fn unsupported_kind_error() -> EmbeddingGeneratorErrorView {
    EmbeddingGeneratorErrorView::ModelLoadingError("unknown model kind"@)
}

/// The error of a request whose answer can no longer come: the worker is not
/// serving, or the channel for the answer closed with nothing in it.
pub open spec fn channel_closed_error() -> EmbeddingGeneratorErrorView {
    EmbeddingGeneratorErrorView::InternalError("channel closed unexpectedly"@)
}

/// An answer as contracts see it: the vectors in order, or the error.
pub open spec fn reply_view<V>(reply: Result<Vec<V>, EmbeddingGeneratorError>) -> Result<
    Seq<V>,
    EmbeddingGeneratorErrorView,
> {
    match reply {
        Ok(vectors) => Ok(vectors@),
        Err(error) => Err(error@),
    }
}

/// What a caller is told, given what came back on the channel of its request:
/// the worker's answer as it is, or an internal error where the channel
/// closed without an answer.
pub open spec fn spec_settle_reply<V>(
    received: Option<Result<Seq<V>, EmbeddingGeneratorErrorView>>,
) -> Result<Seq<V>, EmbeddingGeneratorErrorView> {
    match received {
        Some(reply) => reply,
        None => Err(channel_closed_error()),
    }
}

/// What came back on a channel as contracts see it.
pub open spec fn received_view<V>(
    received: Option<Result<Vec<V>, EmbeddingGeneratorError>>,
) -> Option<Result<Seq<V>, EmbeddingGeneratorErrorView>> {
    match received {
        Some(reply) => Some(reply_view(reply)),
        None => None,
    }
}

/// Settles what the caller of one request is told. `received` is what came
/// back on the request's own channel: the worker's answer, or `None` where the
/// channel closed before any answer. An answer is handed on unchanged, success
/// or error; a closed channel becomes an internal error. The caller is not
/// made to try again.
pub fn settle_reply<V>(received: Option<Result<Vec<V>, EmbeddingGeneratorError>>) -> (result:
    Result<Vec<V>, EmbeddingGeneratorError>)
    ensures
        reply_view(result) == spec_settle_reply(received_view(received)),
        received matches Some(reply) ==> result == reply,
{
    match received {
        Some(reply) => reply,
        None => Err(
            EmbeddingGeneratorError::InternalError(String::from_str("channel closed unexpectedly")),
        ),
    }
}

} // verus!
