//! What holds of the operations taken together.
//!
//! The pasteboard stands between a write and the read that follows it.
//! These laws take it at its word: the pasteboard performs the commands of
//! a write as `contents_after` describes, and answers the next read with
//! what it then holds.

use vstd::prelude::*;
use vstd::utf8::encode_utf8;

use crate::clipboard::{
    attachment_commands, attachment_item, first_object, read_payloads, read_text, read_types, text_commands,
};
use crate::error::{ClipboardError, ReadFailure};
use crate::exchange::{contents_after, CommandView, ObjectView};
use crate::item::{
    carries, distinct_types, lemma_fixed_types_differ, lemma_position_of_unique, payload, type_ids,
    Representations, ATTACHMENT_TYPE, PLAIN_TEXT_TYPE,
};
use crate::text::{lemma_text_of_encoding, text_of};

verus! {

/// A write of text leaves exactly that text on the pasteboard, whatever
/// was there before.
pub proof fn lemma_write_replaces_contents(before: Seq<ObjectView>, text: Seq<char>)
    ensures
        contents_after(before, text_commands(text)) == seq![ObjectView::Text(text)],
{
    reveal_with_fuel(contents_after, 3);
    let commands = text_commands(text);
    assert(commands.drop_first() =~= seq![commands[1]]);
    assert(commands.drop_first().drop_first() =~= Seq::<CommandView>::empty());
    assert(contents_after(before, commands) =~= seq![ObjectView::Text(text)]);
}

/// A write with attachment leaves exactly its one item on the pasteboard,
/// whatever was there before.
pub proof fn lemma_write_data_replaces_contents(before: Seq<ObjectView>, text: Seq<char>, data: Seq<u8>)
    ensures
        contents_after(before, attachment_commands(text, data)) == seq![
            ObjectView::Item(attachment_item(text, data)),
        ],
{
    reveal_with_fuel(contents_after, 3);
    let commands = attachment_commands(text, data);
    assert(commands.drop_first() =~= seq![commands[1]]);
    assert(commands.drop_first().drop_first() =~= Seq::<CommandView>::empty());
    assert(contents_after(before, commands) =~= seq![ObjectView::Item(attachment_item(text, data))]);
}

/// Text that is written is the text that is read: for every text, the
/// empty one included, and whatever the pasteboard held before.
pub proof fn lemma_write_then_read(before: Seq<ObjectView>, text: Seq<char>)
    ensures
        read_text(Some(contents_after(before, text_commands(text)))) == Ok::<Seq<char>, ClipboardError>(
            text,
        ),
{
    lemma_write_replaces_contents(before, text);
}

/// The item that a write with attachment builds carries its two payloads
/// under two different types, and nothing else.
pub proof fn lemma_attachment_item(text: Seq<char>, data: Seq<u8>)
    ensures
        distinct_types(attachment_item(text, data)),
        type_ids(attachment_item(text, data)) == seq![PLAIN_TEXT_TYPE@, ATTACHMENT_TYPE@],
        payload(attachment_item(text, data), PLAIN_TEXT_TYPE@) == encode_utf8(text),
        payload(attachment_item(text, data), ATTACHMENT_TYPE@) == data,
{
    lemma_fixed_types_differ();
    let item = attachment_item(text, data);
    assert(distinct_types(item));
    lemma_position_of_unique(item, 0);
    lemma_position_of_unique(item, 1);
    assert(type_ids(item) =~= seq![PLAIN_TEXT_TYPE@, ATTACHMENT_TYPE@]);
}

/// Text and attachment that are written together are read back together:
/// the same text and the same bytes, for every text and every byte
/// sequence, empty ones included.
pub proof fn lemma_write_data_then_read_data(before: Seq<ObjectView>, text: Seq<char>, data: Seq<u8>)
    ensures
        read_payloads(Some(contents_after(before, attachment_commands(text, data)))) == Ok::<
            (Seq<char>, Seq<u8>),
            ClipboardError,
        >((text, data)),
{
    lemma_write_data_replaces_contents(before, text, data);
    lemma_attachment_item(text, data);
    lemma_text_of_encoding(text);
}

/// After a write with attachment, the listing of types names the
/// plain-text type and the attachment type, in that order.
pub proof fn lemma_write_data_then_read_buffer(before: Seq<ObjectView>, text: Seq<char>, data: Seq<u8>)
    ensures
        read_types(Some(contents_after(before, attachment_commands(text, data)))) == Ok::<
            Seq<Seq<char>>,
            ClipboardError,
        >(seq![PLAIN_TEXT_TYPE@, ATTACHMENT_TYPE@]),
        seq![PLAIN_TEXT_TYPE@, ATTACHMENT_TYPE@].contains(PLAIN_TEXT_TYPE@),
        seq![PLAIN_TEXT_TYPE@, ATTACHMENT_TYPE@].contains(ATTACHMENT_TYPE@),
{
    lemma_write_data_replaces_contents(before, text, data);
    lemma_attachment_item(text, data);
    let ids = seq![PLAIN_TEXT_TYPE@, ATTACHMENT_TYPE@];
    assert(ids[0] == PLAIN_TEXT_TYPE@);
    assert(ids[1] == ATTACHMENT_TYPE@);
}

/// A first item without an attachment reads as an empty attachment, not as
/// a failure; likewise an item without plain text reads as empty text.
pub proof fn lemma_absent_payload_reads_empty(reps: Representations, rest: Seq<ObjectView>)
    ensures
        read_payloads(Some(seq![ObjectView::Item(reps)] + rest)) is Ok,
        !carries(reps, ATTACHMENT_TYPE@) ==> read_payloads(Some(seq![ObjectView::Item(reps)] + rest))->Ok_0.1
            == Seq::<u8>::empty(),
        !carries(reps, PLAIN_TEXT_TYPE@) ==> read_payloads(Some(seq![ObjectView::Item(reps)] + rest))->Ok_0.0
            == Seq::<char>::empty(),
{
    let reply = seq![ObjectView::Item(reps)] + rest;
    assert(reply[0] == ObjectView::Item(reps));
    assert(text_of(Seq::<u8>::empty()) =~= Seq::<char>::empty());
}

/// An item that carries text under the plain-text type and nothing else,
/// which is how text alone shows when it is read as an item, gives that
/// text and an empty attachment.
pub proof fn lemma_text_only_item_has_empty_attachment(text: Seq<char>)
    ensures
        read_payloads(Some(seq![ObjectView::Item(seq![(PLAIN_TEXT_TYPE@, encode_utf8(text))])])) == Ok::<
            (Seq<char>, Seq<u8>),
            ClipboardError,
        >((text, Seq::<u8>::empty())),
{
    lemma_fixed_types_differ();
    let reps: Representations = seq![(PLAIN_TEXT_TYPE@, encode_utf8(text))];
    assert(distinct_types(reps));
    lemma_position_of_unique(reps, 0);
    assert(!carries(reps, ATTACHMENT_TYPE@));
    lemma_text_of_encoding(text);
}

/// Of two writes in a row only the second can be read: the pasteboard
/// holds the second text and nothing of the first.
pub proof fn lemma_second_write_wins(before: Seq<ObjectView>, first: Seq<char>, second: Seq<char>)
    ensures
        contents_after(contents_after(before, text_commands(first)), text_commands(second)) == seq![
            ObjectView::Text(second),
        ],
        read_text(
            Some(contents_after(contents_after(before, text_commands(first)), text_commands(second))),
        ) == Ok::<Seq<char>, ClipboardError>(second),
{
    lemma_write_replaces_contents(contents_after(before, text_commands(first)), second);
}

/// A pasteboard that was cleared and not written to gives a read nothing:
/// the read fails with `NoCompatibleData`, as it does when the pasteboard
/// answers with no list at all.
pub proof fn lemma_cleared_pasteboard_reads_nothing(before: Seq<ObjectView>)
    ensures
        contents_after(before, seq![CommandView::ClearContents]) == Seq::<ObjectView>::empty(),
        read_text(Some(contents_after(before, seq![CommandView::ClearContents]))) == Err::<
            Seq<char>,
            ClipboardError,
        >(ClipboardError::NoCompatibleData(ReadFailure::NoObjects)),
        read_text(None) == Err::<Seq<char>, ClipboardError>(
            ClipboardError::NoCompatibleData(ReadFailure::NullResult),
        ),
{
    reveal_with_fuel(contents_after, 2);
    let commands = seq![CommandView::ClearContents];
    assert(commands.drop_first() =~= Seq::<CommandView>::empty());
    assert(contents_after(before, commands) =~= Seq::<ObjectView>::empty());
}

/// Only the first object of an answer is ever looked at, so a read loses
/// nothing by asking for one object at most.
pub proof fn lemma_first_object_decides(objects: Seq<ObjectView>)
    requires
        objects.len() > 0,
    ensures
        first_object(Some(objects)) == first_object(Some(objects.take(1))),
        read_text(Some(objects)) == read_text(Some(objects.take(1))),
        read_payloads(Some(objects)) == read_payloads(Some(objects.take(1))),
        read_types(Some(objects)) == read_types(Some(objects.take(1))),
{
    assert(objects.take(1)[0] == objects[0]);
}

} // verus!
