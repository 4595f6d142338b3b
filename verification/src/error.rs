//! The failures that abort an extraction.

use vstd::prelude::*;
use vstd::string::*;

verus! {

/// Why an extraction returned nothing.
#[derive(Clone, Copy, Debug, PartialEq, Eq, Structural)]
pub enum ExtractError {
    /// The tag directory of the image container could not be read.
    MalformedContainer,
    /// The document could not be opened.
    UnreadableDocument,
    /// A thumbnail descriptor of the XMP packet lacks one of its four
    /// parts: format, width, height, image.
    IncompleteThumbnail,
}

impl ExtractError {
    /// What went wrong, in words.
    pub open spec fn message_text(self) -> Seq<char> {
        match self {
            ExtractError::MalformedContainer => "the tag directory of the image could not be read"@,
            ExtractError::UnreadableDocument => "the document could not be opened"@,
            ExtractError::IncompleteThumbnail => "a thumbnail of the XMP packet is incomplete"@,
        }
    }

    /// What went wrong, in words.
    pub fn message(&self) -> (r: String)
        ensures
            r@ == self.message_text(),
    {
        match self {
            ExtractError::MalformedContainer => {
                "the tag directory of the image could not be read".to_owned()
            },
            ExtractError::UnreadableDocument => "the document could not be opened".to_owned(),
            ExtractError::IncompleteThumbnail => {
                "a thumbnail of the XMP packet is incomplete".to_owned()
            },
        }
    }
}

} // verus!
