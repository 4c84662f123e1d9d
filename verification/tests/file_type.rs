use tgbotapi::files::FileType;

#[test]
fn test_file_type() {
    let url = FileType::URL("test".into());
    assert_eq!(url.needs_upload(), false, "url does not need upload");
    assert!(url.file().is_none(), "url does not have file");

    let file_id = FileType::FileID("test".into());
    assert_eq!(
        file_id.needs_upload(),
        false,
        "file_id does not need upload"
    );
    assert!(file_id.file().is_none(), "file_id does not have file");

    let attach = FileType::Attach("test".into());
    assert_eq!(attach.needs_upload(), false, "attach does not need upload");
    assert!(attach.file().is_none(), "attach does not have file");

    let bytes = FileType::Bytes("name".into(), vec![1, 2, 3]);
    assert_eq!(bytes.needs_upload(), true, "bytes needs upload");
    assert!(bytes.file().is_some(), "bytes has file");
}

#[test]
fn test_file_part_contents() {
    let bytes = FileType::Bytes("name".into(), vec![1, 2, 3]);
    let part = bytes.file().expect("bytes has file");
    assert_eq!(part.file_name, "name");
    assert_eq!(part.bytes, vec![1, 2, 3]);
}
