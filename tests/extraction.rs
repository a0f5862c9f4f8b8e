use assistant_core::extract::{
    begin_extraction, docx_text, finish_docx, finish_pdf, ExtractError, ExtractStep,
};
use assistant_core::validate::ValidationError;

#[test]
fn plain_text_extracted() {
    let bytes = "héllo".as_bytes().to_vec();
    assert_eq!(begin_extraction(&bytes, "note.TXT"), Ok(ExtractStep::Done("héllo".to_string())));
}

#[test]
fn plain_text_must_be_utf8() {
    assert_eq!(begin_extraction(&vec![0xff, 0xfe], "data.csv"), Err(ExtractError::NotUtf8));
}

#[test]
fn unsupported_type_refused() {
    assert_eq!(
        begin_extraction(&vec![1, 2, 3], "tool.exe"),
        Err(ExtractError::Refused(ValidationError::UnsupportedFileType("exe".to_string())))
    );
}

#[test]
fn oversized_file_refused() {
    let bytes = vec![b'a'; 10 * 1024 * 1024 + 1];
    assert_eq!(
        begin_extraction(&bytes, "big.txt"),
        Err(ExtractError::Refused(ValidationError::FileTooLarge))
    );
    let bytes = vec![0u8; 10 * 1024 * 1024 + 1];
    assert_eq!(
        begin_extraction(&bytes, "big.pdf"),
        Err(ExtractError::Refused(ValidationError::FileTooLarge))
    );
}

#[test]
fn readers_chosen_by_extension() {
    assert_eq!(begin_extraction(&vec![1, 2], "a.PDF"), Ok(ExtractStep::ReadPdf));
    assert_eq!(begin_extraction(&vec![1, 2], "a.docx"), Ok(ExtractStep::ReadDocx));
}

#[test]
fn pdf_outcome_finished() {
    assert_eq!(finish_pdf(Ok("page text".to_string())), Ok("page text".to_string()));
    assert_eq!(
        finish_pdf(Err("bad xref".to_string())),
        Err(ExtractError::Unreadable("bad xref".to_string()))
    );
}

#[test]
fn docx_outcome_finished() {
    let blocks = vec![
        Some(vec![Some(vec![Some("Hello, ".to_string())]), Some(vec![Some("world".to_string())])]),
        Some(vec![Some(vec![Some("Second".to_string())])]),
    ];
    assert_eq!(finish_docx(Ok(blocks)), Ok("Hello, world\nSecond\n".to_string()));
    assert_eq!(
        finish_docx(Err("not a zip".to_string())),
        Err(ExtractError::Unreadable("not a zip".to_string()))
    );
}

#[test]
fn docx_text_of_tree() {
    let blocks = vec![
        Some(vec![Some(vec![Some("a".to_string()), None, Some("b".to_string())]), None]),
        None,
        Some(vec![]),
    ];
    assert_eq!(docx_text(&blocks), "ab\n\n");
}
