use bytes::Bytes;
use content_store::entry::{Entry, EntryBuilder};

#[test]
fn builder_keeps_the_name() {
    let builder = EntryBuilder::new("notes.txt");
    assert_eq!(builder.name(), "notes.txt");
}

#[test]
fn builder_keeps_an_empty_name() {
    assert_eq!(EntryBuilder::new("").name(), "");
}

#[test]
fn builder_keeps_a_name_beyond_ascii() {
    assert_eq!(EntryBuilder::new("früh/夜.txt").name(), "früh/夜.txt");
}

#[test]
fn entry_name_is_its_bytes() {
    let entry = Entry::new(Bytes::from_static(b"notes.txt"));
    assert_eq!(entry.name(), Bytes::from_static(b"notes.txt"));
    assert_eq!(entry.name().as_ref(), b"notes.txt");
}

#[test]
fn entry_name_shares_the_record() {
    let data = Bytes::from(vec![1u8, 2, 3]);
    let entry = Entry::new(data.clone());
    let name = entry.name();
    assert_eq!(name.as_ptr(), data.as_ptr());
    assert_eq!(name.len(), 3);
}
