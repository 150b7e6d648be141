//! The failures that reach a caller, and whose fault each of them is.

use crate::payload::PayloadError;
use vstd::prelude::*;

verus! {

/// A failure of submitting batches or of asking for their status. Each
/// carries the text that names what went wrong.
#[derive(Debug, PartialEq, Eq)]
pub enum TransactionError {
    /// The batch bytes could not be decoded.
    BatchParseError(String),
    /// The batch, or an action in it, was decoded and found invalid.
    InvalidBatch(String),
    /// The request refers to something that does not exist.
    NoResource(String),
    /// A batch id is malformed, or none was given.
    InvalidId(String),
    /// The ledger could not be reached.
    Unavailable(String),
    /// The connection to the ledger timed out.
    ConnectionTimeout(String),
    /// Anything else that went wrong on this side.
    Internal(String),
}

/// Who has to act on a failure.
#[derive(Clone, Copy, Debug, PartialEq, Eq, Structural)]
pub enum FaultClass {
    /// The caller must correct the request.
    Client,
    /// The caller cannot do anything about it.
    Server,
}

impl FaultClass {
    /// The HTTP status code that stands for the class.
    pub open spec fn code(self) -> u16 {
        match self {
            FaultClass::Client => 400,
            FaultClass::Server => 500,
        }
    }

    /// The HTTP status code that stands for the class.
    pub fn http_code(&self) -> (code: u16)
        ensures
            code == self.code(),
    {
        match self {
            FaultClass::Client => 400,
            FaultClass::Server => 500,
        }
    }
}

/// What the standard library's debug formatting makes of a text: the text
/// between double quotes, with its escapes applied.
pub uninterp spec fn debug_text(text: Seq<char>) -> Seq<char>;

/// Renders a text as the standard library's `Debug` formatting of a `str`
/// does (`format!("{:?}", text)`). Nothing is proved of this call: the
/// contract claims only that the rendering depends on the text alone, and
/// gives it the name `debug_text`.
#[verifier::external_body]
fn debug_render(text: &str) -> (rendered: String)
    ensures
        rendered@ == debug_text(text@),
{
    format!("{:?}", text)
}

impl TransactionError {
    /// The class of the failure: a fixed table over its kind.
    pub open spec fn class(self) -> FaultClass {
        match self {
            TransactionError::BatchParseError(_) => FaultClass::Client,
            TransactionError::InvalidBatch(_) => FaultClass::Client,
            TransactionError::NoResource(_) => FaultClass::Client,
            TransactionError::InvalidId(_) => FaultClass::Client,
            TransactionError::Unavailable(_) => FaultClass::Server,
            TransactionError::ConnectionTimeout(_) => FaultClass::Server,
            TransactionError::Internal(_) => FaultClass::Server,
        }
    }

    /// The text that the failure carries.
    pub open spec fn detail(self) -> Seq<char> {
        match self {
            TransactionError::BatchParseError(text) => text@,
            TransactionError::InvalidBatch(text) => text@,
            TransactionError::NoResource(text) => text@,
            TransactionError::InvalidId(text) => text@,
            TransactionError::Unavailable(text) => text@,
            TransactionError::ConnectionTimeout(text) => text@,
            TransactionError::Internal(text) => text@,
        }
    }

    /// The name of the failure's kind.
    pub open spec fn kind_name(self) -> Seq<char> {
        match self {
            TransactionError::BatchParseError(_) => "BatchParseError"@,
            TransactionError::InvalidBatch(_) => "InvalidBatch"@,
            TransactionError::NoResource(_) => "NoResource"@,
            TransactionError::InvalidId(_) => "InvalidId"@,
            TransactionError::Unavailable(_) => "Unavailable"@,
            TransactionError::ConnectionTimeout(_) => "ConnectionTimeout"@,
            TransactionError::Internal(_) => "Internal"@,
        }
    }

    /// The name of the failure's kind.
    pub fn name(&self) -> (name: &'static str)
        ensures
            name@ == self.kind_name(),
    {
        match self {
            TransactionError::BatchParseError(_) => "BatchParseError",
            TransactionError::InvalidBatch(_) => "InvalidBatch",
            TransactionError::NoResource(_) => "NoResource",
            TransactionError::InvalidId(_) => "InvalidId",
            TransactionError::Unavailable(_) => "Unavailable",
            TransactionError::ConnectionTimeout(_) => "ConnectionTimeout",
            TransactionError::Internal(_) => "Internal",
        }
    }

    /// The text that the failure carries.
    pub fn text(&self) -> (text: &str)
        ensures
            text@ == self.detail(),
    {
        match self {
            TransactionError::BatchParseError(text)
            | TransactionError::InvalidBatch(text)
            | TransactionError::NoResource(text)
            | TransactionError::InvalidId(text)
            | TransactionError::Unavailable(text)
            | TransactionError::ConnectionTimeout(text)
            | TransactionError::Internal(text) => text.as_str(),
        }
    }

    /// The message for the failure, given the rendering of the text that it
    /// carries. A client fault shows the kind and, in brackets, the rendered
    /// text, so that the request can be corrected; a server fault shows the
    /// kind and nothing more.
    pub open spec fn message_given(self, rendered: Seq<char>) -> Seq<char> {
        match self.class() {
            FaultClass::Client => self.kind_name() + "("@ + rendered + ")"@,
            FaultClass::Server => self.kind_name(),
        }
    }

    /// The message for the failure: for a client fault its debug rendering,
    /// for a server fault the name of its kind.
    pub open spec fn message_text(self) -> Seq<char> {
        self.message_given(debug_text(self.detail()))
    }

    /// Puts the message together from the name of the kind and the carried
    /// text as already rendered.
    pub fn message_from(&self, rendered: &str) -> (text: String)
        ensures
            text@ == self.message_given(rendered@),
    {
        let mut text = String::from_str(self.name());
        match self.classify() {
            FaultClass::Client => {
                text.append("(");
                text.append(rendered);
                text.append(")");
            },
            FaultClass::Server => {},
        }
        text
    }

    /// The message for the failure.
    pub fn message(&self) -> (text: String)
        ensures
            text@ == self.message_text(),
    {
        let rendered = debug_render(self.text());
        self.message_from(rendered.as_str())
    }

    /// Classifies the failure.
    pub fn classify(&self) -> (class: FaultClass)
        ensures
            class == self.class(),
    {
        match self {
            TransactionError::BatchParseError(_)
            | TransactionError::InvalidBatch(_)
            | TransactionError::NoResource(_)
            | TransactionError::InvalidId(_) => FaultClass::Client,
            _ => FaultClass::Server,
        }
    }

    /// The failure that a rejected payload amounts to: a payload that did
    /// not decode is a parse error, one with an empty required field is an
    /// invalid batch. Either carries the payload error's diagnostic, and
    /// either is the caller's fault.
    pub fn from_payload(error: &PayloadError) -> (failure: TransactionError)
        ensures
            failure.detail() == error.message_text(),
            error is Decode ==> failure is BatchParseError,
            error is Validation ==> failure is InvalidBatch,
            failure.class() == FaultClass::Client,
    {
        match error {
            PayloadError::Decode(_) => TransactionError::BatchParseError(error.message()),
            PayloadError::Validation(_) => TransactionError::InvalidBatch(error.message()),
        }
    }
}

} // verus!
