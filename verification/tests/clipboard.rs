use clipboard_macos::{
    Clipboard, ClipboardError, Command, ContentClass, ReadFailure, Item, PasteboardObject, ReadRequest,
    ATTACHMENT_TYPE, PLAIN_TEXT_TYPE,
};

fn handle() -> Clipboard<u32> {
    match Clipboard::new(Some(7u32)) {
        Ok(clipboard) => clipboard,
        Err(e) => panic!("no handle: {}", e.message()),
    }
}

fn text(s: &str) -> PasteboardObject {
    PasteboardObject::Text(s.to_string())
}

#[test]
fn new_keeps_the_pasteboard() {
    let clipboard = handle();
    assert_eq!(*clipboard.pasteboard(), 7);
}

#[test]
fn new_without_pasteboard_is_unavailable() {
    let made = Clipboard::<u32>::new(None);
    assert!(matches!(made, Err(ClipboardError::ResourceUnavailable)));
}

#[test]
fn text_request_asks_for_one_text() {
    let request = handle().text_request();
    assert_eq!(request, ReadRequest { classes: vec![ContentClass::Text], limit: 1 });
}

#[test]
fn item_request_asks_for_one_item() {
    let request = handle().item_request();
    assert_eq!(request, ReadRequest { classes: vec![ContentClass::Item], limit: 1 });
}

#[test]
fn requests_take_no_more_than_their_limit() {
    let request = handle().text_request();
    assert_eq!(request.take_count(0), 0);
    assert_eq!(request.take_count(1), 1);
    assert_eq!(request.take_count(5), 1);
    let wide = ReadRequest { classes: vec![ContentClass::Item, ContentClass::Text], limit: 3 };
    assert_eq!(wide.take_count(2), 2);
    assert_eq!(wide.take_count(3), 3);
    assert_eq!(wide.take_count(usize::MAX), 3);
    let none = ReadRequest { classes: Vec::new(), limit: 0 };
    assert_eq!(none.take_count(4), 0);
}

#[test]
fn read_takes_the_first_text() {
    let clipboard = handle();
    assert_eq!(clipboard.read(Some(vec![text("hello")])), Ok("hello".to_string()));
    assert_eq!(clipboard.read(Some(vec![text("one"), text("two")])), Ok("one".to_string()));
    assert_eq!(clipboard.read(Some(vec![text("")])), Ok(String::new()));
    assert_eq!(clipboard.read(Some(vec![text("héllo, 世界 🦀")])), Ok("héllo, 世界 🦀".to_string()));
}

#[test]
fn read_of_null_answer_is_no_compatible_data() {
    assert_eq!(handle().read(None), Err(ClipboardError::NoCompatibleData(ReadFailure::NullResult)));
}

#[test]
fn read_of_empty_answer_is_no_compatible_data() {
    assert_eq!(handle().read(Some(Vec::new())), Err(ClipboardError::NoCompatibleData(ReadFailure::NoObjects)));
}

#[test]
fn read_fails_closed_on_another_class() {
    let clipboard = handle();
    let mut item = Item::new();
    item.set_data(PLAIN_TEXT_TYPE, b"hello".to_vec());
    assert_eq!(
        clipboard.read(Some(vec![PasteboardObject::Item(item), text("hello")])),
        Err(ClipboardError::NoCompatibleData(ReadFailure::ForeignObject))
    );
    assert_eq!(
        clipboard.read(Some(vec![PasteboardObject::Other])),
        Err(ClipboardError::NoCompatibleData(ReadFailure::ForeignObject))
    );
}

#[test]
fn read_data_takes_both_payloads_of_the_first_item() {
    let clipboard = handle();
    let mut first = Item::new();
    first.set_data(ATTACHMENT_TYPE, vec![0x01, 0x02]);
    first.set_data("public.png", vec![0xff]);
    first.set_data(PLAIN_TEXT_TYPE, b"a".to_vec());
    let mut second = Item::new();
    second.set_data(PLAIN_TEXT_TYPE, b"b".to_vec());
    let reply = Some(vec![PasteboardObject::Item(first), PasteboardObject::Item(second)]);
    assert_eq!(clipboard.read_data(reply), Ok(("a".to_string(), vec![0x01, 0x02])));
}

#[test]
fn read_data_decodes_utf8() {
    let clipboard = handle();
    let mut item = Item::new();
    item.set_data(PLAIN_TEXT_TYPE, vec![0x68, 0xc3, 0xa9, 0x20, 0xe4, 0xb8, 0x96, 0x20, 0xf0, 0x9f, 0xa6, 0x80]);
    item.set_data(ATTACHMENT_TYPE, Vec::new());
    assert_eq!(
        clipboard.read_data(Some(vec![PasteboardObject::Item(item)])),
        Ok(("hé 世 🦀".to_string(), Vec::new()))
    );
}

#[test]
fn read_data_replaces_ill_formed_bytes() {
    let clipboard = handle();
    let mut item = Item::new();
    item.set_data(PLAIN_TEXT_TYPE, vec![0x66, 0xff, 0x6f]);
    item.set_data(ATTACHMENT_TYPE, vec![0xff, 0xfe]);
    assert_eq!(
        clipboard.read_data(Some(vec![PasteboardObject::Item(item)])),
        Ok(("f\u{fffd}o".to_string(), vec![0xff, 0xfe]))
    );
    let mut truncated = Item::new();
    truncated.set_data(PLAIN_TEXT_TYPE, vec![0x61, 0xe4, 0xb8]);
    assert_eq!(
        clipboard.read_data(Some(vec![PasteboardObject::Item(truncated)])),
        Ok(("a\u{fffd}".to_string(), Vec::new()))
    );
}

#[test]
fn read_data_without_attachment_gives_empty_bytes() {
    let clipboard = handle();
    let mut item = Item::new();
    item.set_data(PLAIN_TEXT_TYPE, b"only text".to_vec());
    assert_eq!(
        clipboard.read_data(Some(vec![PasteboardObject::Item(item)])),
        Ok(("only text".to_string(), Vec::new()))
    );
}

#[test]
fn read_data_without_text_gives_empty_text() {
    let clipboard = handle();
    let mut item = Item::new();
    item.set_data(ATTACHMENT_TYPE, vec![5, 6, 7]);
    assert_eq!(clipboard.read_data(Some(vec![PasteboardObject::Item(item)])), Ok((String::new(), vec![5, 6, 7])));
    assert_eq!(
        clipboard.read_data(Some(vec![PasteboardObject::Item(Item::new())])),
        Ok((String::new(), Vec::new()))
    );
}

#[test]
fn read_data_of_null_or_empty_answer_is_no_compatible_data() {
    let clipboard = handle();
    assert_eq!(clipboard.read_data(None), Err(ClipboardError::NoCompatibleData(ReadFailure::NullResult)));
    assert_eq!(clipboard.read_data(Some(Vec::new())), Err(ClipboardError::NoCompatibleData(ReadFailure::NoObjects)));
}

#[test]
fn read_data_fails_closed_on_another_class() {
    let clipboard = handle();
    assert_eq!(
        clipboard.read_data(Some(vec![text("a")])),
        Err(ClipboardError::NoCompatibleData(ReadFailure::ForeignObject))
    );
    assert_eq!(
        clipboard.read_data(Some(vec![PasteboardObject::Other, PasteboardObject::Item(Item::new())])),
        Err(ClipboardError::NoCompatibleData(ReadFailure::ForeignObject))
    );
}

#[test]
fn read_buffer_lists_the_types_in_order() {
    let clipboard = handle();
    let mut first = Item::new();
    first.set_data("public.html", vec![1]);
    first.set_data(PLAIN_TEXT_TYPE, vec![2]);
    first.set_data("public.rtf", Vec::new());
    let mut second = Item::new();
    second.set_data(ATTACHMENT_TYPE, vec![3]);
    let reply = Some(vec![PasteboardObject::Item(first), PasteboardObject::Item(second)]);
    assert_eq!(
        clipboard.read_buffer(reply),
        Ok(vec!["public.html".to_string(), PLAIN_TEXT_TYPE.to_string(), "public.rtf".to_string()])
    );
    assert_eq!(clipboard.read_buffer(Some(vec![PasteboardObject::Item(Item::new())])), Ok(Vec::new()));
}

#[test]
fn read_buffer_of_null_or_empty_answer_is_no_compatible_data() {
    let clipboard = handle();
    assert_eq!(clipboard.read_buffer(None), Err(ClipboardError::NoCompatibleData(ReadFailure::NullResult)));
    assert_eq!(clipboard.read_buffer(Some(Vec::new())), Err(ClipboardError::NoCompatibleData(ReadFailure::NoObjects)));
}

#[test]
fn read_buffer_fails_closed_on_another_class() {
    let clipboard = handle();
    assert_eq!(
        clipboard.read_buffer(Some(vec![text("a")])),
        Err(ClipboardError::NoCompatibleData(ReadFailure::ForeignObject))
    );
    assert_eq!(
        clipboard.read_buffer(Some(vec![PasteboardObject::Other])),
        Err(ClipboardError::NoCompatibleData(ReadFailure::ForeignObject))
    );
}

#[test]
fn write_clears_then_writes_one_string() {
    let mut clipboard = handle();
    assert_eq!(
        clipboard.write("hello".to_string()),
        vec![Command::ClearContents, Command::WriteObjects(vec![text("hello")])]
    );
    assert_eq!(
        clipboard.write(String::new()),
        vec![Command::ClearContents, Command::WriteObjects(vec![text("")])]
    );
    assert_eq!(*clipboard.pasteboard(), 7);
}

#[test]
fn write_data_clears_then_writes_one_item() {
    let mut clipboard = handle();
    let mut expected = Item::new();
    expected.set_data(PLAIN_TEXT_TYPE, vec![0x61]);
    expected.set_data(ATTACHMENT_TYPE, vec![0x01, 0x02]);
    assert_eq!(
        clipboard.write_data("a", vec![0x01, 0x02]),
        vec![Command::ClearContents, Command::WriteObjects(vec![PasteboardObject::Item(expected)])]
    );
    assert_eq!(*clipboard.pasteboard(), 7);
}

#[test]
fn write_data_stores_text_as_utf8() {
    let mut clipboard = handle();
    let commands = clipboard.write_data("é世", Vec::new());
    let mut expected = Item::new();
    expected.set_data(PLAIN_TEXT_TYPE, vec![0xc3, 0xa9, 0xe4, 0xb8, 0x96]);
    expected.set_data(ATTACHMENT_TYPE, Vec::new());
    assert_eq!(
        commands,
        vec![Command::ClearContents, Command::WriteObjects(vec![PasteboardObject::Item(expected)])]
    );
}

#[test]
fn write_outcome_follows_the_verdict() {
    let clipboard = handle();
    assert_eq!(clipboard.write_outcome(true), Ok(()));
    assert_eq!(clipboard.write_outcome(false), Err(ClipboardError::WriteRejected));
}

#[test]
fn every_failure_has_its_message() {
    assert_eq!(ClipboardError::ResourceUnavailable.message(), "NSPasteboard#generalPasteboard returned null");
    assert_eq!(
        ClipboardError::NoCompatibleData(ReadFailure::NullResult).message(),
        "pasteboard#readObjectsForClasses:options: returned null"
    );
    assert_eq!(
        ClipboardError::NoCompatibleData(ReadFailure::NoObjects).message(),
        "pasteboard#readObjectsForClasses:options: returned empty"
    );
    assert_eq!(
        ClipboardError::NoCompatibleData(ReadFailure::ForeignObject).message(),
        "pasteboard#readObjectsForClasses:options: returned an object of another class"
    );
    assert_eq!(ClipboardError::WriteRejected.message(), "NSPasteboard#writeObjects: returned false");
    assert_eq!(
        ClipboardError::MissingRepresentation.message(),
        "NSPasteboardItem#dataForType: returned null"
    );
}
