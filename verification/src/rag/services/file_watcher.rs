//! Changes of watched files.

use crate::text::same_text;
use vstd::prelude::*;

verus! {

/// What happened to a watched file.
#[derive(Debug, Clone)]
pub enum FileEventType {
    Created,
    Modified,
    Deleted,
    Moved { from: String, to: String },
}

/// One change of a watched file.
#[derive(Debug, Clone)]
pub struct FileChangeEvent {
    pub file_path: String,
    pub event_type: FileEventType,
    pub timestamp: String,
}

/// The media type for a file extension in lower case; plain text for every
/// extension that is not known, and for none.
pub open spec fn spec_file_type(extension: Option<Seq<char>>) -> Seq<char> {
    match extension {
        Some(e) => if e == "md"@ {
            "text/markdown"@
        } else if e == "pdf"@ {
            "application/pdf"@
        } else if e == "doc"@ {
            "application/msword"@
        } else if e == "docx"@ {
            "application/vnd.openxmlformats-officedocument.wordprocessingml.document"@
        } else if e == "rtf"@ {
            "application/rtf"@
        } else {
            "text/plain"@
        },
        None => "text/plain"@,
    }
}

/// The media type for the extension of a file, given in lower case.
pub fn determine_file_type(extension: Option<&str>) -> (r: &'static str)
    ensures
        r@ == spec_file_type(
            match extension {
                Some(e) => Some(e@),
                None => None,
            },
        ),
{
    match extension {
        Some(e) => {
            if same_text(e, "md") {
                "text/markdown"
            } else if same_text(e, "pdf") {
                "application/pdf"
            } else if same_text(e, "doc") {
                "application/msword"
            } else if same_text(e, "docx") {
                "application/vnd.openxmlformats-officedocument.wordprocessingml.document"
            } else if same_text(e, "rtf") {
                "application/rtf"
            } else {
                "text/plain"
            }
        },
        None => "text/plain",
    }
}

} // verus!
