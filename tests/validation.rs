use assistant_core::validate::{
    cap_length, check_url_parts, file_extension, is_allowed_extension, plan_extraction,
    sanitize_text, validate_file_extension, validate_model_id, validate_url, ExtractFormat,
    ValidationError, MAX_FILE_BYTES,
};

#[test]
fn sanitize_removes_script_block() {
    assert_eq!(sanitize_text("<script>bad()</script>hello"), "hello");
}

#[test]
fn sanitize_truncates_long_text() {
    let input = "a".repeat(12000);
    let out = sanitize_text(&input);
    assert_eq!(out, format!("{}... [truncated]", "a".repeat(10000)));
}

#[test]
fn sanitize_keeps_text_at_limit() {
    let input = "b".repeat(10000);
    assert_eq!(sanitize_text(&input), input);
}

#[test]
fn cap_length_counts_characters() {
    let input = "é".repeat(10001);
    let out = cap_length(&input);
    assert_eq!(out, format!("{}... [truncated]", "é".repeat(10000)));
}

#[test]
fn sanitize_removes_javascript_scheme() {
    assert_eq!(sanitize_text("go javascript:alert"), "go alert");
}

#[test]
fn sanitize_removes_event_handler() {
    assert_eq!(sanitize_text("<img onclick=x>"), "<img x>");
}

#[test]
fn sanitize_removes_eval_and_exec_calls() {
    assert_eq!(sanitize_text("a eval(1) b"), "a  b");
    assert_eq!(sanitize_text("x exec(rm) y"), "x  y");
}

#[test]
fn sanitize_leaves_plain_text() {
    assert_eq!(sanitize_text("Hello, world."), "Hello, world.");
}

#[test]
fn model_id_accepted() {
    assert_eq!(validate_model_id("gpt-4o-mini"), Ok(()));
    assert_eq!(validate_model_id("a.b_c-1"), Ok(()));
}

#[test]
fn model_id_empty() {
    assert_eq!(validate_model_id(""), Err(ValidationError::EmptyModelId));
}

#[test]
fn model_id_invalid_chars() {
    assert_eq!(validate_model_id("gpt 4"), Err(ValidationError::InvalidModelId));
    assert_eq!(validate_model_id("gpt/4"), Err(ValidationError::InvalidModelId));
}

#[test]
fn model_id_too_long() {
    assert_eq!(validate_model_id(&"m".repeat(100)), Ok(()));
    assert_eq!(validate_model_id(&"m".repeat(101)), Err(ValidationError::ModelIdTooLong));
}

#[test]
fn url_public_https_accepted() {
    assert_eq!(validate_url("https://api.openai.com/v1/chat/completions"), Ok(()));
    assert_eq!(validate_url("http://example.com/x"), Ok(()));
}

#[test]
fn url_unparsable_refused() {
    assert_eq!(validate_url("not a url"), Err(ValidationError::InvalidUrl));
}

#[test]
fn url_other_scheme_refused() {
    assert_eq!(validate_url("ftp://example.com/"), Err(ValidationError::InvalidUrl));
}

#[test]
fn url_loopback_refused() {
    assert_eq!(validate_url("http://localhost:8080/"), Err(ValidationError::UnsafeUrl));
    assert_eq!(validate_url("https://127.0.0.1/"), Err(ValidationError::UnsafeUrl));
    assert_eq!(validate_url("http://[::1]/"), Err(ValidationError::UnsafeUrl));
}

#[test]
fn url_private_refused() {
    assert_eq!(validate_url("http://192.168.1.5/"), Err(ValidationError::UnsafeUrl));
    assert_eq!(validate_url("http://10.0.0.1/"), Err(ValidationError::UnsafeUrl));
    assert_eq!(validate_url("http://172.16.0.1/"), Err(ValidationError::UnsafeUrl));
    assert_eq!(validate_url("http://printer.local/"), Err(ValidationError::UnsafeUrl));
}

#[test]
fn url_parts_checked() {
    assert_eq!(check_url_parts("https", Some("example.com")), Ok(()));
    assert_eq!(check_url_parts("https", None), Ok(()));
    assert_eq!(check_url_parts("file", None), Err(ValidationError::InvalidUrl));
    assert_eq!(check_url_parts("http", Some("::1")), Err(ValidationError::UnsafeUrl));
}

#[test]
fn extension_of_names() {
    assert_eq!(file_extension("report.pdf"), "pdf");
    assert_eq!(file_extension("archive.tar.gz"), "gz");
    assert_eq!(file_extension(".bashrc"), "");
    assert_eq!(file_extension("dir.v/readme"), "");
    assert_eq!(file_extension("noext"), "");
}

#[test]
fn extension_allow_list() {
    assert!(is_allowed_extension("yml"));
    assert!(!is_allowed_extension("exe"));
    assert!(!is_allowed_extension("PDF"));
}

#[test]
fn file_extension_case_insensitive() {
    assert_eq!(validate_file_extension("Report.PDF"), Ok(()));
    assert_eq!(validate_file_extension("notes.Md"), Ok(()));
}

#[test]
fn file_extension_refused() {
    assert_eq!(
        validate_file_extension("setup.EXE"),
        Err(ValidationError::UnsupportedFileType("exe".to_string()))
    );
    assert_eq!(
        validate_file_extension("README"),
        Err(ValidationError::UnsupportedFileType(String::new()))
    );
}

#[test]
fn extraction_plans() {
    assert_eq!(plan_extraction("a.pdf", 10), Ok(ExtractFormat::Pdf));
    assert_eq!(plan_extraction("a.DOCX", 10), Ok(ExtractFormat::Docx));
    assert_eq!(plan_extraction("a.rs", MAX_FILE_BYTES), Ok(ExtractFormat::PlainText));
    assert_eq!(plan_extraction("a.txt", MAX_FILE_BYTES + 1), Err(ValidationError::FileTooLarge));
    assert_eq!(
        plan_extraction("a.bin", 1),
        Err(ValidationError::UnsupportedFileType("bin".to_string()))
    );
}
