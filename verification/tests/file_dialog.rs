use ios_file_dialog::file_dialog::available;
use ios_file_dialog::file_dialog::pick_file_from_history;
use ios_file_dialog::file_dialog::picker_content_extensions;
use ios_file_dialog::file_dialog::u8_slice_to_path;
use ios_file_dialog::file_dialog::u8_slice_to_string;
use ios_file_dialog::file_dialog::DialogPath;
use ios_file_dialog::file_dialog::FilePath;
use ios_file_dialog::file_dialog::URI_BUFFER_LEN;

#[test]
fn u8_slice_to_string_maps_each_byte_to_its_char() {
    assert_eq!(u8_slice_to_string([104u8, 105u8]), "hi");
    assert_eq!(u8_slice_to_string([47u8, 116u8, 109u8, 112u8]), "/tmp");
}

#[test]
fn u8_slice_to_string_of_empty_buffer_is_empty() {
    assert_eq!(u8_slice_to_string([0u8; 0]), "");
}

#[test]
fn u8_slice_to_string_reads_high_bytes_as_chars_not_utf8() {
    assert_eq!(u8_slice_to_string([0xC8u8]), "\u{C8}");
}

#[test]
fn u8_slice_to_path_decodes_the_same_text() {
    let p = u8_slice_to_path([47u8, 116u8, 109u8, 112u8]);
    assert_eq!(p.as_str(), "/tmp");
}

#[test]
fn file_path_from_buffer_holds_it() {
    let fp = FilePath::from([7u8; URI_BUFFER_LEN]);
    assert_eq!(fp.0, Some([7u8; URI_BUFFER_LEN]));
}

#[test]
fn dialog_path_from_string_holds_it() {
    let p = DialogPath::from(String::from("/a/b"));
    assert_eq!(p.as_str(), "/a/b");
}

#[test]
fn pick_file_from_empty_history_is_none() {
    let r = pick_file_from_history(&FilePath(None));
    assert!(r.is_none());
}

#[test]
fn pick_file_from_filled_history_decodes_it() {
    let mut buf = [97u8; URI_BUFFER_LEN];
    buf[0] = 47;
    let r = pick_file_from_history(&FilePath(Some(buf)));
    let expected = format!("/{}", "a".repeat(URI_BUFFER_LEN - 1));
    assert_eq!(r.unwrap().as_str(), expected);
}

#[test]
fn picker_content_extensions_are_the_accepted_formats() {
    let exts = picker_content_extensions();
    assert_eq!(exts, vec!["csv", "pleco", "apkg"]);
}

#[test]
fn available_accepts_every_version() {
    assert!(available("14.0.0"));
    assert!(available("1.0"));
}
