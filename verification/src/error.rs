//! Failures of the pasteboard layer.

use vstd::prelude::*;

verus! {

/// Why a filtered read left nothing to work with.
#[derive(Clone, Copy, Debug, PartialEq, Eq, Structural)]
pub enum ReadFailure {
    /// The pasteboard answered the read with no list at all.
    NullResult,
    /// The pasteboard accepted the class and answered with an empty list.
    NoObjects,
    /// The first object of the answer is not of the class that was asked for.
    ForeignObject,
}

/// Everything that can go wrong between this layer and the pasteboard.
#[derive(Clone, Copy, Debug, PartialEq, Eq, Structural)]
pub enum ClipboardError {
    /// The general pasteboard could not be obtained.
    ResourceUnavailable,
    /// A filtered read left nothing usable; the cause is kept for diagnostics.
    NoCompatibleData(ReadFailure),
    /// The pasteboard reported that it did not take the objects written to it.
    WriteRejected,
    /// An item does not carry the representation that was asked of it.
    MissingRepresentation,
}

impl ClipboardError {
    /// The diagnostic text of each failure.
    pub open spec fn message_text(self) -> Seq<char> {
        match self {
            ClipboardError::ResourceUnavailable => "NSPasteboard#generalPasteboard returned null"@,
            ClipboardError::NoCompatibleData(ReadFailure::NullResult) =>
                "pasteboard#readObjectsForClasses:options: returned null"@,
            ClipboardError::NoCompatibleData(ReadFailure::NoObjects) =>
                "pasteboard#readObjectsForClasses:options: returned empty"@,
            ClipboardError::NoCompatibleData(ReadFailure::ForeignObject) =>
                "pasteboard#readObjectsForClasses:options: returned an object of another class"@,
            ClipboardError::WriteRejected => "NSPasteboard#writeObjects: returned false"@,
            ClipboardError::MissingRepresentation => "NSPasteboardItem#dataForType: returned null"@,
        }
    }

    /// Renders the failure for a log line or a message to the user.
    pub fn message(&self) -> (text: String)
        ensures
            text@ == self.message_text(),
    {
        match self {
            ClipboardError::ResourceUnavailable => "NSPasteboard#generalPasteboard returned null".to_owned(),
            ClipboardError::NoCompatibleData(ReadFailure::NullResult) =>
                "pasteboard#readObjectsForClasses:options: returned null".to_owned(),
            ClipboardError::NoCompatibleData(ReadFailure::NoObjects) =>
                "pasteboard#readObjectsForClasses:options: returned empty".to_owned(),
            ClipboardError::NoCompatibleData(ReadFailure::ForeignObject) =>
                "pasteboard#readObjectsForClasses:options: returned an object of another class".to_owned(),
            ClipboardError::WriteRejected => "NSPasteboard#writeObjects: returned false".to_owned(),
            ClipboardError::MissingRepresentation => "NSPasteboardItem#dataForType: returned null".to_owned(),
        }
    }
}

} // verus!
