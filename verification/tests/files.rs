use neural_translator::files::{
    assemble_pages, assemble_paragraphs, decode_text_bytes, extension_of, process_file_data,
    validate_file_type, PreparedFile,
};

#[test]
fn extension_is_taken_after_the_last_dot() {
    assert_eq!(extension_of("report.pdf"), "pdf");
    assert_eq!(extension_of("archive.tar.gz"), "gz");
    assert_eq!(extension_of("nodots"), "nodots");
    assert_eq!(extension_of("trailing."), "");
}

#[test]
fn known_extensions_validate_case_insensitively() {
    assert_eq!(validate_file_type("notes.txt").unwrap(), "text");
    assert_eq!(validate_file_type("notes.TXT").unwrap(), "text");
    assert_eq!(validate_file_type("paper.docx").unwrap(), "docx");
    assert_eq!(validate_file_type("paper.PDF").unwrap(), "pdf");
}

#[test]
fn unknown_extension_is_unsupported() {
    assert_eq!(validate_file_type("image.png").unwrap_err(), "Unsupported file type");
    assert_eq!(validate_file_type("plain").unwrap_err(), "Unsupported file type");
}

#[test]
fn utf8_bytes_decode_as_utf8() {
    let bytes: Vec<u8> = "héllo wörld".as_bytes().to_vec();
    assert_eq!(decode_text_bytes(&bytes), "héllo wörld");
}

#[test]
fn shift_jis_bytes_fall_back_to_shift_jis() {
    // "こんにちは" encoded as Shift-JIS: invalid UTF-8, valid Shift-JIS.
    let bytes: Vec<u8> = vec![0x82, 0xB1, 0x82, 0xF1, 0x82, 0xC9, 0x82, 0xBF, 0x82, 0xCD];
    assert_eq!(decode_text_bytes(&bytes), "こんにちは");
}

#[test]
fn last_resort_is_windows_1252() {
    // 0xFD is malformed both as UTF-8 and as Shift-JIS; Windows-1252 maps
    // it to U+00FD.
    let bytes: Vec<u8> = vec![0xFD];
    assert_eq!(decode_text_bytes(&bytes), "ý");
}

#[test]
fn base64_text_file_is_decoded() {
    // "aGVsbG8gd29ybGQ=" is "hello world".
    let prepared = process_file_data("aGVsbG8gd29ybGQ=", "greeting.txt").unwrap();
    match prepared {
        PreparedFile::Text { content } => assert_eq!(content, "hello world"),
        _ => panic!("a .txt name selects the text reader"),
    }
}

#[test]
fn base64_pdf_bytes_are_passed_through() {
    let prepared = process_file_data("aGVsbG8=", "doc.pdf").unwrap();
    match prepared {
        PreparedFile::Pdf { bytes } => assert_eq!(bytes, b"hello".to_vec()),
        _ => panic!("a .pdf name keeps the raw bytes for the PDF reader"),
    }
}

#[test]
fn invalid_base64_is_rejected() {
    let err = process_file_data("!!! not base64 !!!", "a.txt").unwrap_err();
    assert_eq!(err, "Failed to decode file data");
}

#[test]
fn unsupported_upload_names_its_extension() {
    let err = process_file_data("aGVsbG8=", "image.png").unwrap_err();
    assert_eq!(err, "Unsupported file type: png");
}

#[test]
fn failed_pages_are_skipped() {
    let pages = vec![
        Some("first page".to_string()),
        None,
        Some("third page".to_string()),
    ];
    assert_eq!(assemble_pages(&pages).unwrap(), "first page\nthird page");
}

#[test]
fn pdf_with_no_surviving_text_is_an_error() {
    let pages: Vec<Option<String>> = vec![None, Some("  \n".to_string()), None];
    assert_eq!(
        assemble_pages(&pages).unwrap_err(),
        "Could not extract text from PDF file"
    );
}

#[test]
fn paragraphs_join_with_newlines_and_trim() {
    let paragraphs = vec![
        Some("Title".to_string()),
        Some("Body text".to_string()),
    ];
    assert_eq!(assemble_paragraphs(&paragraphs), "Title\nBody text");
    let empty: Vec<Option<String>> = Vec::new();
    assert_eq!(assemble_paragraphs(&empty), "");
}
