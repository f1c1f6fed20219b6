//! What passes between this layer and the pasteboard: the requests it
//! makes, the objects that travel either way, and the commands of a write.

use vstd::prelude::*;

use crate::item::{Item, Representations};

verus! {

/// A class of pasteboard content that a filtered read can ask for.
#[derive(Clone, Copy, Debug, PartialEq, Eq, Structural)]
pub enum ContentClass {
    /// Content the pasteboard can hand over as a string.
    Text,
    /// Raw items, each with all of its representations.
    Item,
}

/// One object on the pasteboard, or on its way there.
#[derive(Debug, PartialEq, Eq)]
pub enum PasteboardObject {
    /// A string.
    Text(String),
    /// An item with its representations.
    Item(Item),
    /// An object of some other class, which this layer neither reads nor
    /// writes.
    Other,
}

/// A pasteboard object as mathematics.
pub enum ObjectView {
    Text(Seq<char>),
    Item(Representations),
    Other,
}

impl View for PasteboardObject {
    type V = ObjectView;

    open spec fn view(&self) -> ObjectView {
        match self {
            PasteboardObject::Text(text) => ObjectView::Text(text@),
            PasteboardObject::Item(item) => ObjectView::Item(item@),
            PasteboardObject::Other => ObjectView::Other,
        }
    }
}

impl DeepView for PasteboardObject {
    type V = ObjectView;

    open spec fn deep_view(&self) -> ObjectView {
        self@
    }
}

/// A filtered read: the classes that are acceptable, and how many of the
/// matching objects are wanted at most. No reading options go with it.
#[derive(Debug, PartialEq, Eq)]
pub struct ReadRequest {
    pub classes: Vec<ContentClass>,
    pub limit: usize,
}

impl ReadRequest {
    /// How many objects to take from an answer that holds `available` of
    /// them: all of them, or as many as the request wants if that is fewer.
    pub fn take_count(&self, available: usize) -> (count: usize)
        ensures
            count == if available <= self.limit {
                available
            } else {
                self.limit
            },
    {
        if available <= self.limit {
            available
        } else {
            self.limit
        }
    }
}

/// One step of a write, to be performed on the pasteboard.
#[derive(Debug, PartialEq, Eq)]
pub enum Command {
    /// Discard everything the pasteboard holds.
    ClearContents,
    /// Place these objects on the pasteboard; the pasteboard answers
    /// whether it took them.
    WriteObjects(Vec<PasteboardObject>),
}

/// A command as mathematics.
pub enum CommandView {
    ClearContents,
    WriteObjects(Seq<ObjectView>),
}

impl View for Command {
    type V = CommandView;

    open spec fn view(&self) -> CommandView {
        match self {
            Command::ClearContents => CommandView::ClearContents,
            Command::WriteObjects(objects) => CommandView::WriteObjects(objects.deep_view()),
        }
    }
}

impl DeepView for Command {
    type V = CommandView;

    open spec fn deep_view(&self) -> CommandView {
        self@
    }
}

/// What the pasteboard holds once it has performed `command` on `before`.
pub open spec fn contents_after_one(before: Seq<ObjectView>, command: CommandView) -> Seq<ObjectView> {
    match command {
        CommandView::ClearContents => Seq::empty(),
        CommandView::WriteObjects(objects) => before + objects,
    }
}

/// What the pasteboard holds once it has performed `commands` in order,
/// starting from `before` and taking everything that is written.
pub open spec fn contents_after(before: Seq<ObjectView>, commands: Seq<CommandView>) -> Seq<ObjectView>
    decreases commands.len(),
{
    if commands.len() == 0 {
        before
    } else {
        contents_after(contents_after_one(before, commands[0]), commands.drop_first())
    }
}

} // verus!
