//! Input policy: endpoint URLs, model identifiers, free text and file names.
use vstd::prelude::*;
use crate::text::{ends_with, is_prefix, is_suffix, joined, owned, starts_with, str_eq};

verus! {

/// Why an input was refused.
#[derive(Debug, PartialEq, Eq)]
pub enum ValidationError {
    /// The URL does not parse, or its scheme is neither http nor https.
    InvalidUrl,
    /// The URL points at a loopback or private-network host.
    UnsafeUrl,
    /// The model identifier is empty.
    EmptyModelId,
    /// The model identifier holds a character outside `[A-Za-z0-9._-]`.
    InvalidModelId,
    /// The model identifier is longer than the limit.
    ModelIdTooLong,
    /// The file's extension, lower-cased, is not on the allow-list.
    UnsupportedFileType(String),
    /// The file is larger than `MAX_FILE_BYTES`.
    FileTooLarge,
    /// A settings field that must not be empty was empty.
    EmptyField,
}

/// Longest accepted model identifier, in characters.
pub const MAX_MODEL_ID_LEN: usize = 100;

/// Largest file accepted for text extraction, in bytes.
pub const MAX_FILE_BYTES: usize = 10485760;

/// Longest sanitized text kept, in characters.
pub const MAX_TEXT_LEN: usize = 10000;

/// Appended to text cut at `MAX_TEXT_LEN`.
pub const TRUNCATION_MARKER: &'static str = "... [truncated]";

/// The pattern a model identifier must match.
pub const MODEL_ID_PATTERN: &'static str = "^[a-zA-Z0-9._-]+$";

/// Script elements, with their content.
pub const SCRIPT_TAG: &'static str = "<script[^>]*>.*?</script>";

/// The `javascript:` scheme.
pub const JS_SCHEME: &'static str = "javascript:";

/// Inline event-handler attributes such as `onclick=`.
pub const EVENT_ATTR: &'static str = "on\\w+=";

/// `eval(...)` calls.
pub const EVAL_CALL: &'static str = "eval\\(.*\\)";

/// `exec(...)` calls.
pub const EXEC_CALL: &'static str = "exec\\(.*\\)";

/// What remains of `text` once every match of `pattern` is removed; `text`
/// itself where `pattern` is not a valid regular expression.
pub uninterp spec fn regex_removed(pattern: Seq<char>, text: Seq<char>) -> Seq<char>;

/// Whether `pattern` matches somewhere in `text`; false where `pattern` is
/// not a valid regular expression.
pub uninterp spec fn regex_found(pattern: Seq<char>, text: Seq<char>) -> bool;

/// Relies on `regex::Regex::new` and `Regex::replace_all` with an empty
/// replacement: the result depends on the pattern and the text alone.
#[verifier::external_body]
fn remove_matches(pattern: &str, text: &str) -> (r: String)
    ensures
        r@ == regex_removed(pattern@, text@),
{
    match regex::Regex::new(pattern) {
        Ok(re) => re.replace_all(text, "").into_owned(),
        Err(_) => text.to_string(),
    }
}

/// Relies on `regex::Regex::new` and `Regex::is_match`: the result depends
/// on the pattern and the text alone.
#[verifier::external_body]
fn pattern_found(pattern: &str, text: &str) -> (r: bool)
    ensures
        r == regex_found(pattern@, text@),
{
    match regex::Regex::new(pattern) {
        Ok(re) => re.is_match(text),
        Err(_) => false,
    }
}

/// `text` with the unsafe patterns removed, in their fixed order.
pub open spec fn stripped(text: Seq<char>) -> Seq<char> {
    let t1 = regex_removed(SCRIPT_TAG@, text);
    let t2 = regex_removed(JS_SCHEME@, t1);
    let t3 = regex_removed(EVENT_ATTR@, t2);
    let t4 = regex_removed(EVAL_CALL@, t3);
    regex_removed(EXEC_CALL@, t4)
}

/// `text` cut to `MAX_TEXT_LEN` characters, with the marker appended when cut.
pub open spec fn capped(text: Seq<char>) -> Seq<char> {
    if text.len() > MAX_TEXT_LEN {
        text.subrange(0, MAX_TEXT_LEN as int) + TRUNCATION_MARKER@
    } else {
        text
    }
}

/// The sanitized form of `text`.
pub open spec fn sanitized(text: Seq<char>) -> Seq<char> {
    capped(stripped(text))
}

/// Cuts `text` to `MAX_TEXT_LEN` characters, appending the marker when it cuts.
pub fn cap_length(text: &str) -> (r: String)
    ensures
        r@ == capped(text@),
{
    let n = text.unicode_len();
    if n > MAX_TEXT_LEN {
        joined(text.substring_char(0, MAX_TEXT_LEN), TRUNCATION_MARKER)
    } else {
        owned(text)
    }
}

/// Removes script tags, `javascript:` schemes, inline event handlers and
/// `eval(...)` / `exec(...)` calls, then caps the length.
pub fn sanitize_text(text: &str) -> (r: String)
    ensures
        r@ == sanitized(text@),
{
    let t1 = remove_matches(SCRIPT_TAG, text);
    let t2 = remove_matches(JS_SCHEME, t1.as_str());
    let t3 = remove_matches(EVENT_ATTR, t2.as_str());
    let t4 = remove_matches(EVAL_CALL, t3.as_str());
    let t5 = remove_matches(EXEC_CALL, t4.as_str());
    cap_length(t5.as_str())
}

/// The verdict on a model identifier.
pub open spec fn model_id_verdict(name: Seq<char>) -> Result<(), ValidationError> {
    if name.len() == 0 {
        Err(ValidationError::EmptyModelId)
    } else if !regex_found(MODEL_ID_PATTERN@, name) {
        Err(ValidationError::InvalidModelId)
    } else if name.len() > MAX_MODEL_ID_LEN {
        Err(ValidationError::ModelIdTooLong)
    } else {
        Ok(())
    }
}

/// Accepts a non-empty identifier of at most `MAX_MODEL_ID_LEN` characters
/// drawn from letters, digits, `.`, `_` and `-`.
pub fn validate_model_id(name: &str) -> (r: Result<(), ValidationError>)
    ensures
        r == model_id_verdict(name@),
{
    if name.unicode_len() == 0 {
        return Err(ValidationError::EmptyModelId);
    }
    if !pattern_found(MODEL_ID_PATTERN, name) {
        return Err(ValidationError::InvalidModelId);
    }
    if name.unicode_len() > MAX_MODEL_ID_LEN {
        return Err(ValidationError::ModelIdTooLong);
    }
    Ok(())
}

/// The scheme of `text` and its host, if it has one; `None` where `text`
/// is not a URL.
pub uninterp spec fn url_parse(text: Seq<char>) -> Option<(Seq<char>, Option<Seq<char>>)>;

/// The characters of an optional string.
pub open spec fn opt_view(s: Option<String>) -> Option<Seq<char>> {
    match s {
        Some(x) => Some(x@),
        None => None,
    }
}

/// Relies on `url::Url::parse`, `Url::scheme` and `Url::host_str`: the
/// result depends on the text alone.
#[verifier::external_body]
fn parse_url(text: &str) -> (r: Option<(String, Option<String>)>)
    ensures
        match r {
            Some(parts) => url_parse(text@) == Some((parts.0@, opt_view(parts.1))),
            None => url_parse(text@) is None,
        },
{
    url::Url::parse(text).ok().map(|u| (u.scheme().to_string(), u.host_str().map(|h| h.to_string())))
}

/// Whether `host` names this machine.
pub open spec fn is_loopback(host: Seq<char>) -> bool {
    host == "localhost"@ || host == "127.0.0.1"@ || host == "::1"@ || host == "[::1]"@
}

/// Whether `host` looks like a private-network address.
pub open spec fn is_private(host: Seq<char>) -> bool {
    is_prefix("192.168."@, host) || is_prefix("10."@, host) || is_prefix("172."@, host)
        || is_suffix(".local"@, host)
}

/// The verdict on a URL's scheme and host.
pub open spec fn url_parts_verdict(scheme: Seq<char>, host: Option<Seq<char>>) -> Result<
    (),
    ValidationError,
> {
    if scheme != "https"@ && scheme != "http"@ {
        Err(ValidationError::InvalidUrl)
    } else {
        match host {
            Some(h) => if is_loopback(h) || is_private(h) {
                Err(ValidationError::UnsafeUrl)
            } else {
                Ok(())
            },
            None => Ok(()),
        }
    }
}

/// The verdict on a URL.
pub open spec fn url_verdict(text: Seq<char>) -> Result<(), ValidationError> {
    match url_parse(text) {
        Some(parts) => url_parts_verdict(parts.0, parts.1),
        None => Err(ValidationError::InvalidUrl),
    }
}

/// Accepts an http or https scheme with a host that is neither loopback nor
/// in a private range.
pub fn check_url_parts(scheme: &str, host: Option<&str>) -> (r: Result<(), ValidationError>)
    ensures
        r == url_parts_verdict(
            scheme@,
            match host {
                Some(h) => Some(h@),
                None => None,
            },
        ),
{
    if !str_eq(scheme, "https") && !str_eq(scheme, "http") {
        return Err(ValidationError::InvalidUrl);
    }
    match host {
        Some(h) => {
            if str_eq(h, "localhost") || str_eq(h, "127.0.0.1") || str_eq(h, "::1") || str_eq(
                h,
                "[::1]",
            ) {
                return Err(ValidationError::UnsafeUrl);
            }
            if starts_with(h, "192.168.") || starts_with(h, "10.") || starts_with(h, "172.")
                || ends_with(h, ".local") {
                return Err(ValidationError::UnsafeUrl);
            }
            Ok(())
        },
        None => Ok(()),
    }
}

/// Accepts a URL that parses, uses http or https, and points at a public host.
pub fn validate_url(url: &str) -> (r: Result<(), ValidationError>)
    ensures
        r == url_verdict(url@),
{
    match parse_url(url) {
        Some(parts) => match &parts.1 {
            Some(h) => check_url_parts(parts.0.as_str(), Some(h.as_str())),
            None => check_url_parts(parts.0.as_str(), None),
        },
        None => Err(ValidationError::InvalidUrl),
    }
}

/// The extension of the last path component of `s[..i]`, given that
/// `s[i..]` holds no `.` and no `/`: empty where there is none, and for a
/// name whose only dot leads it.
pub open spec fn extension_scan(s: Seq<char>, i: int) -> Seq<char>
    decreases i,
{
    if i <= 0 || i > s.len() {
        Seq::empty()
    } else if s[i - 1] == '/' {
        Seq::empty()
    } else if s[i - 1] == '.' {
        if i - 1 == 0 || s[i - 2] == '/' {
            Seq::empty()
        } else {
            s.subrange(i, s.len() as int)
        }
    } else {
        extension_scan(s, i - 1)
    }
}

/// The extension of a file name: what follows the last dot of its last
/// path component.
pub open spec fn extension_of(name: Seq<char>) -> Seq<char> {
    extension_scan(name, name.len() as int)
}

/// Returns the extension of a file name, as `extension_of` gives it.
pub fn file_extension(name: &str) -> (r: &str)
    ensures
        r@ == extension_of(name@),
{
    let n = name.unicode_len();
    let mut i: usize = n;
    while i > 0
        invariant
            n == name@.len(),
            0 <= i <= n,
            extension_scan(name@, i as int) == extension_of(name@),
        decreases i,
    {
        let c = name.get_char(i - 1);
        if c == '/' {
            return name.substring_char(0, 0);
        }
        if c == '.' {
            if i - 1 == 0 || name.get_char(i - 2) == '/' {
                return name.substring_char(0, 0);
            }
            return name.substring_char(i, n);
        }
        i = i - 1;
    }
    name.substring_char(0, 0)
}

/// What `str::to_lowercase` makes of a text.
pub uninterp spec fn lower_of(s: Seq<char>) -> Seq<char>;

/// Relies on `str::to_lowercase`: the result depends on the characters alone.
#[verifier::external_body]
fn lowercase(s: &str) -> (r: String)
    ensures
        r@ == lower_of(s@),
{
    s.to_lowercase()
}

/// Whether a lower-cased extension is on the allow-list.
pub open spec fn allowed_extension(e: Seq<char>) -> bool {
    e == "pdf"@ || e == "docx"@ || e == "txt"@ || e == "md"@ || e == "json"@ || e == "csv"@
        || e == "html"@ || e == "css"@ || e == "js"@ || e == "ts"@ || e == "py"@ || e == "rs"@
        || e == "toml"@ || e == "yaml"@ || e == "yml"@
}

/// Whether a lower-cased extension is on the allow-list.
pub fn is_allowed_extension(e: &str) -> (r: bool)
    ensures
        r == allowed_extension(e@),
{
    str_eq(e, "pdf") || str_eq(e, "docx") || str_eq(e, "txt") || str_eq(e, "md") || str_eq(
        e,
        "json",
    ) || str_eq(e, "csv") || str_eq(e, "html") || str_eq(e, "css") || str_eq(e, "js")
        || str_eq(e, "ts") || str_eq(e, "py") || str_eq(e, "rs") || str_eq(e, "toml")
        || str_eq(e, "yaml") || str_eq(e, "yml")
}

/// The lower-cased extension of a file name.
pub open spec fn lower_extension(name: Seq<char>) -> Seq<char> {
    lower_of(extension_of(name))
}

/// Accepts a file name whose extension, in any case, is on the allow-list;
/// the error carries the lower-cased extension.
pub fn validate_file_extension(name: &str) -> (r: Result<(), ValidationError>)
    ensures
        r is Ok <==> allowed_extension(lower_extension(name@)),
        r is Err ==> (r matches Err(ValidationError::UnsupportedFileType(e)) && e@
            == lower_extension(name@)),
{
    let ext = lowercase(file_extension(name));
    if is_allowed_extension(ext.as_str()) {
        Ok(())
    } else {
        Err(ValidationError::UnsupportedFileType(ext))
    }
}

/// How the text of an accepted file is read.
#[derive(Debug, PartialEq, Eq, Structural)]
pub enum ExtractFormat {
    Pdf,
    Docx,
    PlainText,
}

/// The reader for a lower-cased extension on the allow-list.
pub open spec fn format_for(e: Seq<char>) -> ExtractFormat {
    if e == "pdf"@ {
        ExtractFormat::Pdf
    } else if e == "docx"@ {
        ExtractFormat::Docx
    } else {
        ExtractFormat::PlainText
    }
}

/// Decides how to read a file of `size` bytes named `name`: refuses an
/// extension off the allow-list, then a file over `MAX_FILE_BYTES`.
pub fn plan_extraction(name: &str, size: usize) -> (r: Result<ExtractFormat, ValidationError>)
    ensures
        !allowed_extension(lower_extension(name@)) ==> (r matches Err(
            ValidationError::UnsupportedFileType(e),
        ) && e@ == lower_extension(name@)),
        allowed_extension(lower_extension(name@)) && size > MAX_FILE_BYTES ==> r == Err::<
            ExtractFormat,
            ValidationError,
        >(ValidationError::FileTooLarge),
        allowed_extension(lower_extension(name@)) && size <= MAX_FILE_BYTES ==> r == Ok::<
            ExtractFormat,
            ValidationError,
        >(format_for(lower_extension(name@))),
{
    let ext = lowercase(file_extension(name));
    if !is_allowed_extension(ext.as_str()) {
        return Err(ValidationError::UnsupportedFileType(ext));
    }
    if size > MAX_FILE_BYTES {
        return Err(ValidationError::FileTooLarge);
    }
    if str_eq(ext.as_str(), "pdf") {
        Ok(ExtractFormat::Pdf)
    } else if str_eq(ext.as_str(), "docx") {
        Ok(ExtractFormat::Docx)
    } else {
        Ok(ExtractFormat::PlainText)
    }
}

} // verus!
