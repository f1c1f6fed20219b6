//! The pasteboard handle and its operations.
//!
//! Every operation is one round trip. For a read, the handle names the
//! filtered read to make and then interprets whatever the pasteboard
//! answered. For a write, it lays out the commands to perform and then
//! turns the pasteboard's verdict into a result.

use vstd::prelude::*;
use vstd::string::StrSliceExecFns;
use vstd::utf8::encode_utf8;

use crate::error::{ClipboardError, ReadFailure};
use crate::exchange::{Command, CommandView, ContentClass, ObjectView, PasteboardObject, ReadRequest};
use crate::item::{
    lemma_fixed_types_differ, payload, type_ids, Item, Representations, ATTACHMENT_TYPE, PLAIN_TEXT_TYPE,
};
use crate::text::{decode_lossy, text_of};

verus! {

/// The object a read works on: the first one of the answer. An answer that
/// is no list, or an empty one, leaves nothing to read.
pub open spec fn first_object(reply: Option<Seq<ObjectView>>) -> Result<ObjectView, ClipboardError> {
    match reply {
        None => Err(ClipboardError::NoCompatibleData(ReadFailure::NullResult)),
        Some(objects) => if objects.len() == 0 {
            Err(ClipboardError::NoCompatibleData(ReadFailure::NoObjects))
        } else {
            Ok(objects[0])
        },
    }
}

/// The text that a read for text finds in `reply`.
pub open spec fn read_text(reply: Option<Seq<ObjectView>>) -> Result<Seq<char>, ClipboardError> {
    match first_object(reply) {
        Ok(ObjectView::Text(text)) => Ok(text),
        Ok(_) => Err(ClipboardError::NoCompatibleData(ReadFailure::ForeignObject)),
        Err(e) => Err(e),
    }
}

/// The text and the attachment that a read for items finds in `reply`.
/// A representation that the first item lacks counts as an empty payload.
pub open spec fn read_payloads(reply: Option<Seq<ObjectView>>) -> Result<(Seq<char>, Seq<u8>), ClipboardError> {
    match first_object(reply) {
        Ok(ObjectView::Item(reps)) => Ok(
            (text_of(payload(reps, PLAIN_TEXT_TYPE@)), payload(reps, ATTACHMENT_TYPE@)),
        ),
        Ok(_) => Err(ClipboardError::NoCompatibleData(ReadFailure::ForeignObject)),
        Err(e) => Err(e),
    }
}

/// The type identifiers that a read for items finds on the first item of
/// `reply`, in the item's order.
pub open spec fn read_types(reply: Option<Seq<ObjectView>>) -> Result<Seq<Seq<char>>, ClipboardError> {
    match first_object(reply) {
        Ok(ObjectView::Item(reps)) => Ok(type_ids(reps)),
        Ok(_) => Err(ClipboardError::NoCompatibleData(ReadFailure::ForeignObject)),
        Err(e) => Err(e),
    }
}

/// The commands that publish `text` alone: clear, then write one string.
pub open spec fn text_commands(text: Seq<char>) -> Seq<CommandView> {
    seq![CommandView::ClearContents, CommandView::WriteObjects(seq![ObjectView::Text(text)])]
}

/// The item that carries `text` as UTF-8 under the plain-text type and
/// `data` under the attachment type.
pub open spec fn attachment_item(text: Seq<char>, data: Seq<u8>) -> Representations {
    seq![(PLAIN_TEXT_TYPE@, encode_utf8(text)), (ATTACHMENT_TYPE@, data)]
}

/// The commands that publish `text` with `data` attached: clear, then
/// write the one item that carries both.
pub open spec fn attachment_commands(text: Seq<char>, data: Seq<u8>) -> Seq<CommandView> {
    seq![
        CommandView::ClearContents,
        CommandView::WriteObjects(seq![ObjectView::Item(attachment_item(text, data))]),
    ]
}

/// How a write ends, given the pasteboard's verdict on the objects.
pub open spec fn write_result(accepted: bool) -> Result<(), ClipboardError> {
    if accepted {
        Ok(())
    } else {
        Err(ClipboardError::WriteRejected)
    }
}

/// Takes the first object out of an answer.
fn take_first(reply: Option<Vec<PasteboardObject>>) -> (first: Result<PasteboardObject, ClipboardError>)
    ensures
        match first {
            Ok(object) => first_object(reply.deep_view()) == Ok::<ObjectView, ClipboardError>(object@),
            Err(e) => first_object(reply.deep_view()) == Err::<ObjectView, ClipboardError>(e),
        },
{
    match reply {
        None => Err(ClipboardError::NoCompatibleData(ReadFailure::NullResult)),
        Some(objects) => {
            let mut objects = objects;
            if objects.len() == 0 {
                Err(ClipboardError::NoCompatibleData(ReadFailure::NoObjects))
            } else {
                Ok(objects.swap_remove(0))
            }
        },
    }
}

/// A handle on the general pasteboard. It owns its reference to the
/// pasteboard for as long as it lives and keeps no other state.
pub struct Clipboard<P> {
    pasteboard: P,
}

impl<P> Clipboard<P> {
    /// The pasteboard reference that the handle owns.
    pub closed spec fn reference(&self) -> P {
        self.pasteboard
    }

    /// Makes a handle from what the system gave when asked for the general
    /// pasteboard. Without a pasteboard there is no handle.
    pub fn new(pasteboard: Option<P>) -> (made: Result<Clipboard<P>, ClipboardError>)
        ensures
            match made {
                Ok(clipboard) => pasteboard == Some(clipboard.reference()),
                Err(e) => pasteboard is None && e == ClipboardError::ResourceUnavailable,
            },
    {
        match pasteboard {
            Some(pasteboard) => Ok(Clipboard { pasteboard }),
            None => Err(ClipboardError::ResourceUnavailable),
        }
    }

    /// The pasteboard to perform requests and commands on.
    pub fn pasteboard(&self) -> (reference: &P)
        ensures
            *reference == self.reference(),
    {
        &self.pasteboard
    }

    /// The filtered read that `read` interprets: the text class alone, and
    /// no more than the first match.
    pub fn text_request(&self) -> (request: ReadRequest)
        ensures
            request.classes@ == seq![ContentClass::Text],
            request.limit == 1,
    {
        let mut classes: Vec<ContentClass> = Vec::new();
        classes.push(ContentClass::Text);
        ReadRequest { classes, limit: 1 }
    }

    /// The filtered read that `read_data` and `read_buffer` interpret: the
    /// item class alone, and no more than the first match.
    pub fn item_request(&self) -> (request: ReadRequest)
        ensures
            request.classes@ == seq![ContentClass::Item],
            request.limit == 1,
    {
        let mut classes: Vec<ContentClass> = Vec::new();
        classes.push(ContentClass::Item);
        ReadRequest { classes, limit: 1 }
    }

    /// Reads the text out of the answer to `text_request`: the first
    /// object's string.
    pub fn read(&self, reply: Option<Vec<PasteboardObject>>) -> (result: Result<String, ClipboardError>)
        ensures
            match result {
                Ok(text) => read_text(reply.deep_view()) == Ok::<Seq<char>, ClipboardError>(text@),
                Err(e) => read_text(reply.deep_view()) == Err::<Seq<char>, ClipboardError>(e),
            },
    {
        match take_first(reply) {
            Ok(PasteboardObject::Text(text)) => Ok(text),
            Ok(_) => Err(ClipboardError::NoCompatibleData(ReadFailure::ForeignObject)),
            Err(e) => Err(e),
        }
    }

    /// Reads text and attachment out of the answer to `item_request`: from
    /// the first item, the plain-text payload decoded lossily and the
    /// attachment payload as it is. A payload the item lacks is empty.
    pub fn read_data(&self, reply: Option<Vec<PasteboardObject>>) -> (result: Result<
        (String, Vec<u8>),
        ClipboardError,
    >)
        ensures
            match result {
                Ok((text, data)) => read_payloads(reply.deep_view()) == Ok::<
                    (Seq<char>, Seq<u8>),
                    ClipboardError,
                >((text@, data@)),
                Err(e) => read_payloads(reply.deep_view()) == Err::<(Seq<char>, Seq<u8>), ClipboardError>(e),
            },
    {
        match take_first(reply) {
            Ok(PasteboardObject::Item(item)) => {
                let nothing: Vec<u8> = Vec::new();
                let text_bytes = match item.data_for_type(PLAIN_TEXT_TYPE) {
                    Ok(bytes) => bytes,
                    Err(_) => &nothing,
                };
                let text = decode_lossy(text_bytes);
                let data = match item.data_for_type(ATTACHMENT_TYPE) {
                    Ok(bytes) => bytes.clone(),
                    Err(_) => Vec::new(),
                };
                assert(text_bytes@ =~= payload(item@, PLAIN_TEXT_TYPE@));
                assert(data@ =~= payload(item@, ATTACHMENT_TYPE@));
                Ok((text, data))
            },
            Ok(_) => Err(ClipboardError::NoCompatibleData(ReadFailure::ForeignObject)),
            Err(e) => Err(e),
        }
    }

    /// Lists the type identifiers of the first item in the answer to
    /// `item_request`, in the order in which the item reports them.
    pub fn read_buffer(&self, reply: Option<Vec<PasteboardObject>>) -> (result: Result<
        Vec<String>,
        ClipboardError,
    >)
        ensures
            match result {
                Ok(ids) => read_types(reply.deep_view()) == Ok::<Seq<Seq<char>>, ClipboardError>(
                    ids.deep_view(),
                ),
                Err(e) => read_types(reply.deep_view()) == Err::<Seq<Seq<char>>, ClipboardError>(e),
            },
    {
        match take_first(reply) {
            Ok(PasteboardObject::Item(item)) => Ok(item.types()),
            Ok(_) => Err(ClipboardError::NoCompatibleData(ReadFailure::ForeignObject)),
            Err(e) => Err(e),
        }
    }

    /// Lays out the write of `data` as the only content: discard what the
    /// pasteboard holds, then place one string on it.
    #[must_use]
    pub fn write(&mut self, data: String) -> (commands: Vec<Command>)
        ensures
            commands.deep_view() == text_commands(data@),
            final(self).reference() == old(self).reference(),
    {
        let mut objects: Vec<PasteboardObject> = Vec::new();
        objects.push(PasteboardObject::Text(data));
        assert(objects.deep_view() =~= seq![ObjectView::Text(data@)]);
        let mut commands: Vec<Command> = Vec::new();
        commands.push(Command::ClearContents);
        commands.push(Command::WriteObjects(objects));
        assert(commands.deep_view() =~= text_commands(data@));
        commands
    }

    /// Lays out the write of `s` with `data` attached: build one item that
    /// carries both, discard what the pasteboard holds, then place that
    /// item on it.
    #[must_use]
    pub fn write_data(&mut self, s: &str, data: Vec<u8>) -> (commands: Vec<Command>)
        ensures
            commands.deep_view() == attachment_commands(s@, data@),
            final(self).reference() == old(self).reference(),
    {
        let mut item = Item::new();
        item.set_data(PLAIN_TEXT_TYPE, s.as_bytes_vec());
        assert(item@ =~= seq![(PLAIN_TEXT_TYPE@, encode_utf8(s@))]);
        proof {
            lemma_fixed_types_differ();
        }
        item.set_data(ATTACHMENT_TYPE, data);
        assert(item@ =~= attachment_item(s@, data@));
        let mut objects: Vec<PasteboardObject> = Vec::new();
        objects.push(PasteboardObject::Item(item));
        assert(objects.deep_view() =~= seq![ObjectView::Item(attachment_item(s@, data@))]);
        let mut commands: Vec<Command> = Vec::new();
        commands.push(Command::ClearContents);
        commands.push(Command::WriteObjects(objects));
        assert(commands.deep_view() =~= attachment_commands(s@, data@));
        commands
    }

    /// Ends a write: the pasteboard's verdict on the objects decides
    /// between success and `WriteRejected`.
    pub fn write_outcome(&self, accepted: bool) -> (result: Result<(), ClipboardError>)
        ensures
            result == write_result(accepted),
    {
        if accepted {
            Ok(())
        } else {
            Err(ClipboardError::WriteRejected)
        }
    }
}

} // verus!
