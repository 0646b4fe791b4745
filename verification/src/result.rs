//! The error taxonomy and the result envelope of a tool call.
//!
//! Every internal failure is converted into a structured `ToolFailure` at the
//! dispatcher boundary; no failure terminates a connection or the process.

use crate::models::TimeResponse;
use crate::models::WeatherResponse;
use vstd::prelude::*;

verus! {

/// Machine-readable category of a tool-call failure.
#[derive(Clone, Copy, PartialEq, Eq, Structural, Debug)]
pub enum ErrorCode {
    /// The requested tool name is not registered.
    UnknownCapability,
    /// Schema validation or decoding of the arguments failed.
    InvalidArguments,
    /// A handler-level precondition failed (e.g. an empty location field).
    DomainValidationError,
    /// The outbound collaborator call failed, returned a non-success status,
    /// or produced an unparseable body.
    UpstreamFailure,
    /// A required secret is absent from the process configuration.
    ConfigurationMissing,
    /// A message arrived out of the expected session state.
    ProtocolViolation,
}

/// A structured tool-call failure: a stable code, a human-readable message,
/// and whether the caller may meaningfully retry.
#[derive(Debug)]
pub struct ToolFailure {
    pub code: ErrorCode,
    pub message: String,
    pub retryable: bool,
}

/// Mathematical image of a [`ToolFailure`].
pub struct ToolFailureV {
    pub code: ErrorCode,
    pub message: Seq<char>,
    pub retryable: bool,
}

impl View for ToolFailure {
    type V = ToolFailureV;

    open spec fn view(&self) -> ToolFailureV {
        ToolFailureV { code: self.code, message: self.message@, retryable: self.retryable }
    }
}

impl ToolFailure {
    /// Build a non-retryable failure with the given code and message.
    pub fn new(code: ErrorCode, message: &str) -> (r: ToolFailure)
        ensures
            r.code == code,
            r.message@ == message@,
            !r.retryable,
    {
        ToolFailure { code, message: message.to_owned(), retryable: false }
    }
}

/// One typed content block of a successful tool call: the structured value
/// the transport edge encodes for the client.
pub enum ContentBlock {
    Weather(WeatherResponse),
    Time(TimeResponse),
}

/// Mathematical image of a [`ContentBlock`].
pub enum ContentBlockV {
    Weather(crate::models::WeatherResponseV),
    Time(crate::models::TimeResponseV),
}

impl View for ContentBlock {
    type V = ContentBlockV;

    open spec fn view(&self) -> ContentBlockV {
        match self {
            ContentBlock::Weather(w) => ContentBlockV::Weather(w@),
            ContentBlock::Time(t) => ContentBlockV::Time(t@),
        }
    }
}

impl DeepView for ContentBlock {
    type V = ContentBlockV;

    open spec fn deep_view(&self) -> ContentBlockV {
        self.view()
    }
}

/// The result envelope of one tool call: either a sequence of content blocks
/// or a structured failure. A call fully succeeds or fully fails; no partial
/// result is ever returned.
pub enum ToolCallResult {
    Success(Vec<ContentBlock>),
    Failure(ToolFailure),
}

/// Mathematical image of a [`ToolCallResult`].
pub enum ToolCallResultV {
    Success(Seq<ContentBlockV>),
    Failure(ToolFailureV),
}

impl View for ToolCallResult {
    type V = ToolCallResultV;

    open spec fn view(&self) -> ToolCallResultV {
        match self {
            ToolCallResult::Success(blocks) => ToolCallResultV::Success(blocks.deep_view()),
            ToolCallResult::Failure(f) => ToolCallResultV::Failure(f@),
        }
    }
}

} // verus!
