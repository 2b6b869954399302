//! From a file to the text that stands for it.
//!
//! The caller reads the file and runs what only it can run: the PDF reader,
//! the text recognizer, the file system's record of size and date. The
//! functions here take those as plain values. They choose the reader by the
//! extension, fall back to recognized text where a PDF gives too little,
//! describe an image by what is known of it, and refuse what cannot be read.

use vstd::prelude::*;
use vstd::utf8::{decode_utf8, valid_utf8};
use crate::error::{ExtractError, ExtractFault};
use crate::extract::{
    clean_lines, cleaned, elision, head_share, lemma_truncate_keeps_both_ends, smart_truncate,
    truncated, TEXT_BUDGET,
};
use crate::office::{
    archive_entry, docx_text_from, extract_docx, extract_pptx, outcome, pptx_text_of,
};
use crate::paths::{extension, extension_of, file_name, file_name_of};
use crate::sheets::{extract_xlsx, xlsx_text_of, Workbook, WorkbookView};
use crate::text::{
    ascii_lower, chars_of, decimal, is_str, lead, lemma_lead, lemma_trail, opt_str, opt_text,
    push_all, push_decimal, push_str, string_of, to_ascii_lower, trail, trim, trim_of,
    trim_start_of, CharClass,
};

verus! {

/// The error that `from_utf8` returns; nothing is read from it.
#[verifier::external_type_specification]
#[verifier::external_body]
pub struct ExUtf8Error(core::str::Utf8Error);

/// `core::str::from_utf8`: it succeeds exactly on valid UTF-8, and the string
/// it returns holds the characters that the bytes encode.
pub assume_specification[ core::str::from_utf8 ](v: &[u8]) -> (r: Result<
    &str,
    core::str::Utf8Error,
>)
    ensures
        r is Ok <==> valid_utf8(v@),
        r matches Ok(s) ==> s@ == decode_utf8(v@),
;

/// The extension of `path` in lower case; empty where the path has none.
pub open spec fn lower_extension_of(path: Seq<char>) -> Seq<char> {
    match extension_of(path) {
        Some(e) => ascii_lower(e),
        None => Seq::empty(),
    }
}

/// The extension of `path` in lower case; empty where the path has none.
pub fn lower_extension(path: &str) -> (r: Vec<char>)
    ensures
        r@ == lower_extension_of(path@),
{
    match extension(path) {
        Some(e) => {
            let chars = chars_of(e.as_str());
            to_ascii_lower(&chars)
        },
        None => Vec::new(),
    }
}

/// The formats whose text can be extracted.
#[derive(Clone, Copy, Debug, PartialEq, Eq, Structural)]
pub enum Format {
    Pdf,
    Docx,
    Pptx,
    Sheet,
    Plain,
}

/// The format that a lower-case extension names.
pub open spec fn format_of(ext: Seq<char>) -> Option<Format> {
    if ext == "pdf"@ {
        Some(Format::Pdf)
    } else if ext == "docx"@ {
        Some(Format::Docx)
    } else if ext == "pptx"@ {
        Some(Format::Pptx)
    } else if ext == "xlsx"@ || ext == "xls"@ {
        Some(Format::Sheet)
    } else if ext == "txt"@ || ext == "md"@ || ext == "markdown"@ {
        Some(Format::Plain)
    } else {
        None
    }
}

/// The format that a lower-case extension names.
pub fn format_for(ext: &Vec<char>) -> (r: Option<Format>)
    ensures
        r == format_of(ext@),
{
    if is_str(ext, "pdf") {
        Some(Format::Pdf)
    } else if is_str(ext, "docx") {
        Some(Format::Docx)
    } else if is_str(ext, "pptx") {
        Some(Format::Pptx)
    } else if is_str(ext, "xlsx") || is_str(ext, "xls") {
        Some(Format::Sheet)
    } else if is_str(ext, "txt") || is_str(ext, "md") || is_str(ext, "markdown") {
        Some(Format::Plain)
    } else {
        None
    }
}

/// Whether a text holds nothing but white space.
pub open spec fn blank(t: Seq<char>) -> bool {
    trim_of(t, CharClass::Space).len() == 0
}

/// Whether `text` holds nothing but white space.
pub fn is_blank(text: &str) -> (r: bool)
    ensures
        r == blank(text@),
{
    let chars = chars_of(text);
    trim(&chars, CharClass::Space).len() == 0
}

/// The text of a plain-text file: its lines cleaned, if its bytes are UTF-8.
pub open spec fn plain_text_of(bytes: Seq<u8>) -> Result<Seq<char>, (ExtractFault, Seq<char>)> {
    if valid_utf8(bytes) {
        Ok(cleaned(decode_utf8(bytes)))
    } else {
        Err((ExtractFault::NotText, Seq::empty()))
    }
}

/// The text of the plain-text file `bytes`.
pub fn extract_txt(bytes: &[u8]) -> (r: Result<String, ExtractError>)
    ensures
        outcome(r) == plain_text_of(bytes@),
{
    match core::str::from_utf8(bytes) {
        Ok(s) => {
            let chars = chars_of(s);
            let lines = clean_lines(&chars);
            Ok(string_of(&lines))
        },
        Err(_) => Err(ExtractError::bare(ExtractFault::NotText)),
    }
}

/// What the reader that the extension of `path` calls for makes of the file:
/// `bytes` is the file's content; `pdf_text` is what the PDF reader gave for
/// it and `book` what the spreadsheet reader gave, each read only for a
/// file of its format.
pub open spec fn raw_text(
    path: Seq<char>,
    bytes: Seq<u8>,
    pdf_text: Seq<char>,
    book: WorkbookView,
) -> Result<Seq<char>, (ExtractFault, Seq<char>)> {
    match format_of(lower_extension_of(path)) {
        None => Err((ExtractFault::UnsupportedFormat, lower_extension_of(path))),
        Some(Format::Pdf) => Ok(cleaned(pdf_text)),
        Some(Format::Docx) => docx_text_from(archive_entry(bytes, "word/document.xml"@)),
        Some(Format::Pptx) => pptx_text_of(bytes),
        Some(Format::Sheet) => xlsx_text_of(book),
        Some(Format::Plain) => plain_text_of(bytes),
    }
}

/// The text extracted from a file: what its reader gives, refused if blank,
/// and cut to the budget.
pub open spec fn extracted(
    path: Seq<char>,
    bytes: Seq<u8>,
    pdf_text: Seq<char>,
    book: WorkbookView,
) -> Result<Seq<char>, (ExtractFault, Seq<char>)> {
    match raw_text(path, bytes, pdf_text, book) {
        Err(e) => Err(e),
        Ok(t) => if blank(t) {
            Err((ExtractFault::NothingReadable, Seq::empty()))
        } else {
            Ok(truncated(t, TEXT_BUDGET as nat))
        },
    }
}

/// Extracts the text of the file at `path`, whose content is `bytes`. For a
/// PDF, `pdf_text` is what the PDF reader gave (empty where it failed); for
/// a spreadsheet, `book` is what the spreadsheet reader gave.
///
/// On success the text is never blank and holds at most `TEXT_BUDGET`
/// characters of the document.
pub fn extract_text(path: &str, bytes: &[u8], pdf_text: &str, book: &Workbook) -> (r: Result<
    String,
    ExtractError,
>)
    ensures
        outcome(r) == extracted(path@, bytes@, pdf_text@, book@),
        r matches Ok(t) ==> !blank(t@) && t@.len() <= TEXT_BUDGET + elision().len(),
{
    let ext = lower_extension(path);
    let raw = match format_for(&ext) {
        None => {
            return Err(ExtractError::with(ExtractFault::UnsupportedFormat, string_of(&ext)));
        },
        Some(Format::Pdf) => {
            let chars = chars_of(pdf_text);
            let lines = clean_lines(&chars);
            Ok(string_of(&lines))
        },
        Some(Format::Docx) => extract_docx(bytes),
        Some(Format::Pptx) => extract_pptx(bytes),
        Some(Format::Sheet) => extract_xlsx(book),
        Some(Format::Plain) => extract_txt(bytes),
    };
    match raw {
        Err(e) => Err(e),
        Ok(text) => {
            if is_blank(text.as_str()) {
                Err(ExtractError::bare(ExtractFault::NothingReadable))
            } else {
                let cut = smart_truncate(text.as_str(), TEXT_BUDGET);
                proof {
                    lemma_cut_not_blank(text@, TEXT_BUDGET as nat);
                    if text@.len() > TEXT_BUDGET {
                        lemma_truncate_keeps_both_ends(text@, TEXT_BUDGET as nat);
                    }
                }
                Ok(cut)
            }
        },
    }
}

/// A text is blank exactly if all its characters are white space.
proof fn lemma_blank_iff_all_space(t: Seq<char>)
    ensures
        blank(t) <==> forall|i: int| 0 <= i < t.len() ==> CharClass::Space.has(#[trigger] t[i]),
{
    let k = CharClass::Space;
    lemma_lead(t, k);
    let s = trim_start_of(t, k);
    lemma_trail(s, k);
    let n = lead(t, k) as int;
    if n < t.len() {
        assert(s[0] == t[n]);
        assert(!k.has(s[0]));
        if trail(s, k) == s.len() {
            assert(k.has(s[0]));
        }
    } else {
        assert(s.len() == 0);
    }
}

/// Cutting a text that is not blank leaves a text that is not blank.
proof fn lemma_cut_not_blank(t: Seq<char>, max: nat)
    requires
        !blank(t),
    ensures
        !blank(truncated(t, max)),
{
    let c = truncated(t, max);
    if t.len() <= max || max == 0 {
    } else {
        lemma_blank_iff_all_space(c);
        let h = head_share(max) as int;
        reveal_strlit("\n\n[...中间内容省略...]\n\n");
        assert(elision().len() == 18);
        assert(elision()[2] == '[');
        assert(c[h + 2] == '[');
        assert(!CharClass::Space.has(c[h + 2]));
    }
}

/// What is known of a file from the file system.
#[derive(Debug, PartialEq, Eq)]
pub struct FileFacts {
    /// The size in bytes.
    pub size: u64,
    /// The day of the last change, as `YYYY-MM-DD`; empty where it is unknown.
    pub modified: String,
}

/// What kind of source a file is.
#[derive(Clone, Copy, Debug, PartialEq, Eq, Structural)]
pub enum Source {
    /// A PDF: structural text first, recognized text where that is too little.
    Pdf,
    /// A document whose text is extracted.
    Document,
    /// An image: described by what is known of it, with recognized text.
    Image,
    /// Anything else: refused, since no text can be had from it.
    Unsupported,
}

/// Whether a lower-case extension names an image.
pub open spec fn image_ext(ext: Seq<char>) -> bool {
    ext == "jpg"@ || ext == "jpeg"@ || ext == "png"@ || ext == "heic"@ || ext == "webp"@ || ext
        == "tiff"@
}

/// Whether the lower-case extension `ext` names an image.
pub fn is_image_ext(ext: &Vec<char>) -> (r: bool)
    ensures
        r == image_ext(ext@),
{
    is_str(ext, "jpg") || is_str(ext, "jpeg") || is_str(ext, "png") || is_str(ext, "heic")
        || is_str(ext, "webp") || is_str(ext, "tiff")
}

/// The kind of source that a lower-case extension names.
pub open spec fn source_of(ext: Seq<char>) -> Source {
    match format_of(ext) {
        Some(Format::Pdf) => Source::Pdf,
        Some(_) => Source::Document,
        None => if image_ext(ext) {
            Source::Image
        } else {
            Source::Unsupported
        },
    }
}

/// The kind of source that the file at `path` is.
pub fn source_kind(path: &str) -> (r: Source)
    ensures
        r == source_of(lower_extension_of(path@)),
{
    let ext = lower_extension(path);
    match format_for(&ext) {
        Some(Format::Pdf) => Source::Pdf,
        Some(_) => Source::Document,
        None => if is_image_ext(&ext) {
            Source::Image
        } else {
            Source::Unsupported
        },
    }
}

/// How much the content of a file is needed.
#[derive(Clone, Copy, Debug, PartialEq, Eq, Structural)]
pub enum Need {
    /// It is not read.
    No,
    /// It is read where it can be; a file that cannot be read counts as
    /// empty.
    IfReadable,
    /// It must be read: without it the extraction fails.
    Must,
}

/// What a caller gathers before it asks for the content of a file.
#[derive(Clone, Copy, Debug, PartialEq, Eq, Structural)]
pub struct Gathering {
    /// Whether the bytes of the file are read.
    pub bytes: Need,
    /// Whether the file system's record of the file must be read.
    pub facts: bool,
}

/// What is gathered for a source of kind `source`. A document must be
/// read. A PDF and an image are read where they can be, since recognition
/// may still give their text. An image is described by the file system's
/// record, which must be there for it. For a file of an unsupported format
/// nothing is gathered: it is refused by its extension alone.
pub fn gathering(source: Source) -> (g: Gathering)
    ensures
        g.bytes == match source {
            Source::Document => Need::Must,
            Source::Pdf => Need::IfReadable,
            Source::Image => Need::IfReadable,
            Source::Unsupported => Need::No,
        },
        g.facts == (source == Source::Image),
{
    match source {
        Source::Document => Gathering { bytes: Need::Must, facts: false },
        Source::Pdf => Gathering { bytes: Need::IfReadable, facts: false },
        Source::Image => Gathering { bytes: Need::IfReadable, facts: true },
        Source::Unsupported => Gathering { bytes: Need::No, facts: false },
    }
}

/// Below this many characters, trimmed, the text of a PDF counts as too
/// little: the PDF is likely a scan.
pub const OCR_THRESHOLD: usize = 50;

/// The text of a PDF, from its structural text `primary` (empty where there
/// is none) and the recognized text `ocr` (nothing where recognition failed
/// or was not run). Enough structural text stands. Else recognized text that
/// is not blank stands. Else a structural text that is not blank stands,
/// short as it is; and if there is none, the PDF is refused.
pub open spec fn pdf_choice(primary: Seq<char>, ocr: Option<Seq<char>>) -> Result<
    Seq<char>,
    (ExtractFault, Seq<char>),
> {
    if trim_of(primary, CharClass::Space).len() >= OCR_THRESHOLD {
        Ok(primary)
    } else if ocr is Some && !blank(ocr->0) {
        Ok(ocr->0)
    } else if blank(primary) {
        Err((ExtractFault::ScannedPdf, Seq::empty()))
    } else {
        Ok(primary)
    }
}

/// Whether the structural text of a PDF is too little to stand alone.
pub fn too_little(primary: &str) -> (r: bool)
    ensures
        r == (trim_of(primary@, CharClass::Space).len() < OCR_THRESHOLD),
{
    let chars = chars_of(primary);
    trim(&chars, CharClass::Space).len() < OCR_THRESHOLD
}

/// The text of a PDF, from its structural text and the recognized text.
pub fn choose_pdf_text(primary: String, ocr: Option<&str>) -> (r: Result<String, ExtractError>)
    ensures
        outcome(r) == pdf_choice(primary@, opt_str(ocr)),
{
    if !too_little(primary.as_str()) {
        return Ok(primary);
    }
    match ocr {
        Some(o) => {
            if !is_blank(o) {
                let chars = chars_of(o);
                return Ok(string_of(&chars));
            }
        },
        None => {},
    }
    if is_blank(primary.as_str()) {
        Err(ExtractError::bare(ExtractFault::ScannedPdf))
    } else {
        Ok(primary)
    }
}

/// What the `exif` crate displays for the capture time that the image
/// `bytes` records, if it records one.
pub uninterp spec fn capture_time_of(bytes: Seq<u8>) -> Option<Seq<char>>;

/// What the `exif` crate displays for the camera model that the image
/// `bytes` records, if it records one.
pub uninterp spec fn camera_of(bytes: Seq<u8>) -> Option<Seq<char>>;

/// `Reader::read_from_container` on the bytes, `Exif::get_field` for
/// `DateTimeOriginal` in the primary image, and the field's `display_value`.
/// Nothing where the bytes hold no readable record or the record lacks the
/// field. The outcome depends on the bytes alone.
#[verifier::external_body]
pub(crate) fn read_capture_time(bytes: &[u8]) -> (r: Option<String>)
    ensures
        opt_text(r) == capture_time_of(bytes@),
{
    let record = exif::Reader::new().read_from_container(&mut std::io::Cursor::new(bytes)).ok()?;
    record.get_field(exif::Tag::DateTimeOriginal, exif::In::PRIMARY).map(
        |field| field.display_value().to_string(),
    )
}

/// `Reader::read_from_container` on the bytes, `Exif::get_field` for `Model`
/// in the primary image, and the field's `display_value`. Nothing where the
/// bytes hold no readable record or the record lacks the field. The outcome
/// depends on the bytes alone.
#[verifier::external_body]
pub(crate) fn read_camera(bytes: &[u8]) -> (r: Option<String>)
    ensures
        opt_text(r) == camera_of(bytes@),
{
    let record = exif::Reader::new().read_from_container(&mut std::io::Cursor::new(bytes)).ok()?;
    record.get_field(exif::Tag::Model, exif::In::PRIMARY).map(
        |field| field.display_value().to_string(),
    )
}

/// The four lines that describe a file: name, type, size in whole KB, day of
/// the last change.
pub open spec fn description(name: Seq<char>, ext: Seq<char>, size: nat, modified: Seq<char>) -> Seq<
    char,
> {
    "文件名: "@ + name + "\n文件类型: "@ + ext + "\n文件大小: "@ + decimal(size / 1024) + "KB\n修改日期: "@
        + modified
}

/// `text`, and after it `label` and `value` where there is a value.
pub open spec fn with_field(text: Seq<char>, label: Seq<char>, value: Option<Seq<char>>) -> Seq<
    char,
> {
    match value {
        Some(v) => text + label + v,
        None => text,
    }
}

/// `text`, and after it the recognized text under its heading, unless that
/// is missing or blank.
pub open spec fn with_recognized(text: Seq<char>, ocr: Option<Seq<char>>) -> Seq<char> {
    if ocr is Some && !blank(ocr->0) {
        text + "\n\nOCR识别文字:\n"@ + ocr->0
    } else {
        text
    }
}

/// The name of the file at `path`; empty where the path has none.
pub open spec fn name_of(path: Seq<char>) -> Seq<char> {
    match file_name_of(path) {
        Some(n) => n,
        None => Seq::empty(),
    }
}

/// The text that stands for an image: its description, what it records of
/// its capture, and what was recognized in it.
pub open spec fn image_content(
    path: Seq<char>,
    bytes: Seq<u8>,
    ocr: Option<Seq<char>>,
    size: nat,
    modified: Seq<char>,
) -> Seq<char> {
    let base = description(name_of(path), lower_extension_of(path), size, modified);
    let timed = with_field(base, "\n拍摄时间: "@, capture_time_of(bytes));
    let modelled = with_field(timed, "\n相机: "@, camera_of(bytes));
    with_recognized(modelled, ocr)
}

/// The text that stands for the file at `path`: that of a PDF or a
/// document, the description of an image; a file of any other format is
/// refused, with its extension.
pub open spec fn content_of(
    path: Seq<char>,
    bytes: Seq<u8>,
    pdf_text: Seq<char>,
    book: WorkbookView,
    ocr: Option<Seq<char>>,
    size: nat,
    modified: Seq<char>,
) -> Result<Seq<char>, (ExtractFault, Seq<char>)> {
    match source_of(lower_extension_of(path)) {
        Source::Pdf => pdf_choice(
            match extracted(path, bytes, pdf_text, book) {
                Ok(t) => t,
                Err(_) => Seq::empty(),
            },
            ocr,
        ),
        Source::Document => extracted(path, bytes, pdf_text, book),
        Source::Image => Ok(image_content(path, bytes, ocr, size, modified)),
        Source::Unsupported => Err((ExtractFault::UnsupportedFormat, lower_extension_of(path))),
    }
}

/// Whether recognition should be run on the file at `path` before its
/// content is asked for: on every image, and on a PDF whose structural text
/// is too little.
pub fn wants_ocr(path: &str, bytes: &[u8], pdf_text: &str, book: &Workbook) -> (r: bool)
    ensures
        r == match source_of(lower_extension_of(path@)) {
            Source::Pdf => trim_of(
                match extracted(path@, bytes@, pdf_text@, book@) {
                    Ok(t) => t,
                    Err(_) => Seq::empty(),
                },
                CharClass::Space,
            ).len() < OCR_THRESHOLD,
            Source::Image => true,
            _ => false,
        },
{
    match source_kind(path) {
        Source::Pdf => {
            match extract_text(path, bytes, pdf_text, book) {
                Ok(t) => too_little(t.as_str()),
                Err(_) => {
                    assert(trim_of(Seq::<char>::empty(), CharClass::Space).len() == 0);
                    true
                },
            }
        },
        Source::Image => true,
        _ => false,
    }
}

/// The description of a file, as characters.
fn describe(path: &str, facts: &FileFacts) -> (r: Vec<char>)
    ensures
        r@ == description(
            name_of(path@),
            lower_extension_of(path@),
            facts.size as nat,
            facts.modified@,
        ),
{
    let mut out = chars_of("文件名: ");
    match file_name(path) {
        Some(n) => {
            push_str(&mut out, n.as_str());
        },
        None => {
            assert(out@ + Seq::<char>::empty() == out@);
        },
    }
    push_str(&mut out, "\n文件类型: ");
    let ext = lower_extension(path);
    push_all(&mut out, &ext);
    push_str(&mut out, "\n文件大小: ");
    push_decimal(&mut out, facts.size / 1024);
    push_str(&mut out, "KB\n修改日期: ");
    push_str(&mut out, facts.modified.as_str());
    out
}

/// Appends `label` and `value` where there is a value.
fn push_field(out: &mut Vec<char>, label: &str, value: Option<String>)
    ensures
        final(out)@ == with_field(old(out)@, label@, opt_text(value)),
{
    match value {
        Some(v) => {
            push_str(out, label);
            push_str(out, v.as_str());
        },
        None => {},
    }
}

/// The text that stands for the file at `path`, whose content is `bytes`.
///
/// `pdf_text` is what the PDF reader gave (read for a PDF only); `book` is
/// what the spreadsheet reader gave (read for a spreadsheet only); `ocr` is the
/// recognized text, nothing where recognition failed or was not run (read
/// for a PDF and for an image); `facts` is the file system's record (read
/// for an image only). A file that is neither a document nor an image fails
/// with `UnsupportedFormat` and its extension, whatever else is handed in.
pub fn extract_file_content(
    path: &str,
    bytes: &[u8],
    pdf_text: &str,
    book: &Workbook,
    ocr: Option<&str>,
    facts: &FileFacts,
) -> (r: Result<String, ExtractError>)
    ensures
        outcome(r) == content_of(
            path@,
            bytes@,
            pdf_text@,
            book@,
            opt_str(ocr),
            facts.size as nat,
            facts.modified@,
        ),
{
    match source_kind(path) {
        Source::Pdf => {
            let primary = match extract_text(path, bytes, pdf_text, book) {
                Ok(t) => t,
                Err(_) => String::new(),
            };
            choose_pdf_text(primary, ocr)
        },
        Source::Document => extract_text(path, bytes, pdf_text, book),
        Source::Image => {
            let mut out = describe(path, facts);
            push_field(&mut out, "\n拍摄时间: ", read_capture_time(bytes));
            push_field(&mut out, "\n相机: ", read_camera(bytes));
            match ocr {
                Some(o) => {
                    if !is_blank(o) {
                        push_str(&mut out, "\n\nOCR识别文字:\n");
                        push_str(&mut out, o);
                    }
                },
                None => {},
            }
            Ok(string_of(&out))
        },
        Source::Unsupported => {
            let ext = lower_extension(path);
            Err(ExtractError::with(ExtractFault::UnsupportedFormat, string_of(&ext)))
        },
    }
}

} // verus!
