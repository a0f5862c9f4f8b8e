//! Text extraction from an uploaded file: the file name and size decide the
//! reader. Plain text is read here; the PDF and DOCX readers run outside the
//! library, which takes their outcome and finishes the extraction.
use vstd::prelude::*;
use vstd::utf8::{encode_utf8, valid_utf8};
use crate::codec::string_from_utf8;
use crate::validate::{
    allowed_extension, format_for, lower_extension, plan_extraction, ExtractFormat,
    ValidationError, MAX_FILE_BYTES,
};

verus! {

/// The text of a DOCX document's body as the caller hands it over from the
/// reader: for each
/// block, the runs of a paragraph (`None` for another block); for each run,
/// its pieces (`None` for another inline item); for each piece, its text
/// (`None` for another run item).
pub type DocxBlocks = Vec<Option<Vec<Option<Vec<Option<String>>>>>>;

/// The pieces of a run as values.
pub open spec fn pieces_view(v: Vec<Option<String>>) -> Seq<Option<Seq<char>>> {
    v@.map_values(
        |x: Option<String>|
            match x {
                Some(s) => Some(s@),
                None => None,
            },
    )
}

/// The runs of a paragraph as values.
pub open spec fn runs_view(v: Vec<Option<Vec<Option<String>>>>) -> Seq<Option<Seq<Option<Seq<char>>>>> {
    v@.map_values(
        |x: Option<Vec<Option<String>>>|
            match x {
                Some(r) => Some(pieces_view(r)),
                None => None,
            },
    )
}

/// The blocks of a document as values.
pub open spec fn blocks_view(v: DocxBlocks) -> Seq<Option<Seq<Option<Seq<Option<Seq<char>>>>>>> {
    v@.map_values(
        |x: Option<Vec<Option<Vec<Option<String>>>>>|
            match x {
                Some(p) => Some(runs_view(p)),
                None => None,
            },
    )
}

/// The text pieces of a run, joined.
pub open spec fn run_text(pieces: Seq<Option<Seq<char>>>) -> Seq<char>
    decreases pieces.len(),
{
    if pieces.len() == 0 {
        Seq::empty()
    } else {
        run_text(pieces.drop_last()) + match pieces.last() {
            Some(t) => t,
            None => Seq::empty(),
        }
    }
}

/// The runs of a paragraph, joined.
pub open spec fn paragraph_text(runs: Seq<Option<Seq<Option<Seq<char>>>>>) -> Seq<char>
    decreases runs.len(),
{
    if runs.len() == 0 {
        Seq::empty()
    } else {
        paragraph_text(runs.drop_last()) + match runs.last() {
            Some(r) => run_text(r),
            None => Seq::empty(),
        }
    }
}

/// The text of a document: each paragraph followed by a newline; other
/// blocks give nothing.
pub open spec fn document_text(blocks: Seq<Option<Seq<Option<Seq<Option<Seq<char>>>>>>>) -> Seq<
    char,
>
    decreases blocks.len(),
{
    if blocks.len() == 0 {
        Seq::empty()
    } else {
        document_text(blocks.drop_last()) + match blocks.last() {
            Some(p) => paragraph_text(p) + "\n"@,
            None => Seq::empty(),
        }
    }
}

/// Appends the text pieces of a run to `out`.
fn push_run(out: &mut String, pieces: &Vec<Option<String>>)
    ensures
        final(out)@ == old(out)@ + run_text(pieces_view(*pieces)),
{
    let ghost start = out@;
    let mut i: usize = 0;
    while i < pieces.len()
        invariant
            0 <= i <= pieces@.len(),
            out@ == start + run_text(pieces_view(*pieces).subrange(0, i as int)),
        decreases pieces.len() - i,
    {
        let ghost prefix = pieces_view(*pieces).subrange(0, i + 1);
        assert(prefix.drop_last() =~= pieces_view(*pieces).subrange(0, i as int));
        match &pieces[i] {
            Some(t) => {
                out.append(t.as_str());
            },
            None => {},
        }
        assert(out@ =~= start + run_text(prefix));
        i = i + 1;
    }
    assert(pieces_view(*pieces).subrange(0, pieces@.len() as int) =~= pieces_view(*pieces));
}

/// Appends the runs of a paragraph to `out`.
fn push_paragraph(out: &mut String, runs: &Vec<Option<Vec<Option<String>>>>)
    ensures
        final(out)@ == old(out)@ + paragraph_text(runs_view(*runs)),
{
    let ghost start = out@;
    let mut i: usize = 0;
    while i < runs.len()
        invariant
            0 <= i <= runs@.len(),
            out@ == start + paragraph_text(runs_view(*runs).subrange(0, i as int)),
        decreases runs.len() - i,
    {
        let ghost prefix = runs_view(*runs).subrange(0, i + 1);
        assert(prefix.drop_last() =~= runs_view(*runs).subrange(0, i as int));
        match &runs[i] {
            Some(r) => {
                push_run(out, r);
            },
            None => {},
        }
        assert(out@ =~= start + paragraph_text(prefix));
        i = i + 1;
    }
    assert(runs_view(*runs).subrange(0, runs@.len() as int) =~= runs_view(*runs));
}

/// The text of a document's body: each paragraph's text pieces joined and
/// followed by a newline.
pub fn docx_text(blocks: &DocxBlocks) -> (r: String)
    ensures
        r@ == document_text(blocks_view(*blocks)),
{
    let mut out = String::new();
    let mut i: usize = 0;
    while i < blocks.len()
        invariant
            0 <= i <= blocks@.len(),
            out@ == document_text(blocks_view(*blocks).subrange(0, i as int)),
        decreases blocks.len() - i,
    {
        let ghost prefix = blocks_view(*blocks).subrange(0, i + 1);
        assert(prefix.drop_last() =~= blocks_view(*blocks).subrange(0, i as int));
        let ghost before = out@;
        match &blocks[i] {
            Some(p) => {
                push_paragraph(&mut out, p);
                out.append("\n");
            },
            None => {},
        }
        assert(out@ =~= document_text(prefix));
        i = i + 1;
    }
    assert(blocks_view(*blocks).subrange(0, blocks@.len() as int) =~= blocks_view(*blocks));
    out
}

/// Why no text came out of a file.
#[derive(Debug, PartialEq, Eq)]
pub enum ExtractError {
    /// The file was refused before reading: its type or its size.
    Refused(ValidationError),
    /// The PDF or DOCX reader failed, with its message.
    Unreadable(String),
    /// A plain-text file is not valid UTF-8.
    NotUtf8,
}

/// What comes of the first step of an extraction.
#[derive(Debug, PartialEq, Eq)]
pub enum ExtractStep {
    /// The file was plain text; this is its text.
    Done(String),
    /// The file is accepted and is to go through the PDF reader.
    ReadPdf,
    /// The file is accepted and is to go through the DOCX reader.
    ReadDocx,
}

/// Whether `r` is what the first step owes for an accepted file of `format`.
pub open spec fn first_step(format: ExtractFormat, bytes: Seq<u8>, r: Result<ExtractStep, ExtractError>) -> bool {
    match format {
        ExtractFormat::Pdf => r == Ok::<ExtractStep, ExtractError>(ExtractStep::ReadPdf),
        ExtractFormat::Docx => r == Ok::<ExtractStep, ExtractError>(ExtractStep::ReadDocx),
        ExtractFormat::PlainText => if valid_utf8(bytes) {
            r matches Ok(ExtractStep::Done(s)) && encode_utf8(s@) == bytes
        } else {
            r == Err::<ExtractStep, ExtractError>(ExtractError::NotUtf8)
        },
    }
}

/// The first step of extracting the text of a file: refuses a type off the
/// allow-list, then a file over `MAX_FILE_BYTES`; reads anything but PDF and
/// DOCX as UTF-8 text, and says which reader the others need.
pub fn begin_extraction(bytes: &Vec<u8>, file_name: &str) -> (r: Result<ExtractStep, ExtractError>)
    ensures
        !allowed_extension(lower_extension(file_name@)) ==> (r matches Err(
            ExtractError::Refused(ValidationError::UnsupportedFileType(e)),
        ) && e@ == lower_extension(file_name@)),
        allowed_extension(lower_extension(file_name@)) && bytes@.len() > MAX_FILE_BYTES ==> r
            == Err::<ExtractStep, ExtractError>(ExtractError::Refused(ValidationError::FileTooLarge)),
        allowed_extension(lower_extension(file_name@)) && bytes@.len() <= MAX_FILE_BYTES
            ==> first_step(format_for(lower_extension(file_name@)), bytes@, r),
{
    let format = match plan_extraction(file_name, bytes.len()) {
        Ok(f) => f,
        Err(e) => {
            return Err(ExtractError::Refused(e));
        },
    };
    match format {
        ExtractFormat::Pdf => Ok(ExtractStep::ReadPdf),
        ExtractFormat::Docx => Ok(ExtractStep::ReadDocx),
        ExtractFormat::PlainText => {
            let copy = bytes.clone();
            match string_from_utf8(copy) {
                Some(t) => Ok(ExtractStep::Done(t)),
                None => Err(ExtractError::NotUtf8),
            }
        },
    }
}

/// Finishes a PDF extraction from the reader's outcome: its text, or its
/// error message.
pub fn finish_pdf(outcome: Result<String, String>) -> (r: Result<String, ExtractError>)
    ensures
        outcome matches Ok(t) ==> (r matches Ok(s) && s@ == t@),
        outcome matches Err(m) ==> (r matches Err(ExtractError::Unreadable(e)) && e@ == m@),
{
    match outcome {
        Ok(t) => Ok(t),
        Err(m) => Err(ExtractError::Unreadable(m)),
    }
}

/// Finishes a DOCX extraction from the reader's outcome: the text of the
/// document's body, or the reader's error message.
pub fn finish_docx(outcome: Result<DocxBlocks, String>) -> (r: Result<String, ExtractError>)
    ensures
        outcome matches Ok(b) ==> (r matches Ok(s) && s@ == document_text(blocks_view(b))),
        outcome matches Err(m) ==> (r matches Err(ExtractError::Unreadable(e)) && e@ == m@),
{
    match outcome {
        Ok(b) => Ok(docx_text(&b)),
        Err(m) => Err(ExtractError::Unreadable(m)),
    }
}

} // verus!
