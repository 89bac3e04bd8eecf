//! Errors and states of document processing.

use vstd::prelude::*;
use vstd::string::StringExecFns;

verus! {

/// An error of the retrieval system: a code, a message and, where known,
/// details.
#[derive(Debug, Clone)]
pub struct RagError {
    pub code: String,
    pub message: String,
    pub details: Option<String>,
}

impl RagError {
    /// An error without details.
    pub fn new(code: String, message: String) -> (r: Self)
        ensures
            r.code == code,
            r.message == message,
            r.details is None,
    {
        RagError { code, message, details: None }
    }

    /// The same error with the given details; earlier details are replaced.
    pub fn with_details(self, details: String) -> (r: Self)
        ensures
            r.code == self.code,
            r.message == self.message,
            r.details == Some(details),
    {
        RagError { code: self.code, message: self.message, details: Some(details) }
    }

    /// The error as one line: the code, a colon and a space, the message.
    pub open spec fn spec_to_text(&self) -> Seq<char> {
        self.code@ + ": "@ + self.message@
    }

    /// The error as one line: the code, a colon and a space, the message.
    pub fn to_text(&self) -> (r: String)
        ensures
            r@ == self.spec_to_text(),
    {
        self.code.clone().concat(": ").concat(self.message.as_str())
    }
}

/// How far the processing of a document has come.
#[derive(Debug, Clone, Copy, PartialEq, Eq, Structural)]
pub enum ProcessingStatus {
    Pending,
    Processing,
    Completed,
    Failed,
}

impl ProcessingStatus {
    /// The name of the status in lower case.
    pub open spec fn spec_to_string(&self) -> Seq<char> {
        match self {
            ProcessingStatus::Pending => "pending"@,
            ProcessingStatus::Processing => "processing"@,
            ProcessingStatus::Completed => "completed"@,
            ProcessingStatus::Failed => "failed"@,
        }
    }

    /// The name of the status in lower case.
    pub fn to_string(&self) -> (r: String)
        ensures
            r@ == self.spec_to_string(),
    {
        match self {
            ProcessingStatus::Pending => String::from_str("pending"),
            ProcessingStatus::Processing => String::from_str("processing"),
            ProcessingStatus::Completed => String::from_str("completed"),
            ProcessingStatus::Failed => String::from_str("failed"),
        }
    }
}

} // verus!
