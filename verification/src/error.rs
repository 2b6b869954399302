//! Why no text came out of a document.
//!
//! An error is a kind, which callers branch on, and a detail, which is text
//! that came from outside (an extension, what a reader reported). The
//! message shown to a user is the kind's fixed text followed by the detail.
//! The errors of the other modules are made the same way.

use vstd::prelude::*;
use crate::text::{chars_of, push_str, string_of};

verus! {

/// Why no text came out of a document.
#[derive(Clone, Copy, Debug, PartialEq, Eq, Structural)]
pub enum ExtractFault {
    /// The extension names no format that can be read. Detail: the extension.
    UnsupportedFormat,
    /// The document was read, and held nothing but white space.
    NothingReadable,
    /// A PDF gave no text, neither by its structure nor by recognition.
    ScannedPdf,
    /// The bytes of a text file are not UTF-8.
    NotText,
    /// A word-processing document is no readable archive. Detail: the reader's words.
    NotADocx,
    /// A word-processing document lacks its main part.
    MissingDocument,
    /// A presentation is no readable archive. Detail: the reader's words.
    NotAPptx,
    /// An entry of a presentation could not be opened. Detail: the reader's words.
    PptxEntry,
    /// An entry of an archive could not be read to its end. Detail: the reader's words.
    Unreadable,
    /// A spreadsheet could not be opened. Detail: the reader's words.
    NotAWorkbook,
    /// A spreadsheet holds no sheet.
    NoSheet,
    /// The first sheet of a spreadsheet could not be read. Detail: the reader's words.
    BadSheet,
}

/// The fixed text that a message of kind `kind` starts with.
pub open spec fn extract_prefix(kind: ExtractFault) -> Seq<char> {
    match kind {
        ExtractFault::UnsupportedFormat => "不支持的文件格式: ."@,
        ExtractFault::NothingReadable => "无法读取文件内容（可能是扫描版或加密文件）"@,
        ExtractFault::ScannedPdf => "无法提取文本，可能是扫描版或加密 PDF"@,
        ExtractFault::NotText => "stream did not contain valid UTF-8"@,
        ExtractFault::NotADocx => "无法读取 docx: "@,
        ExtractFault::MissingDocument => "docx 格式异常，找不到 document.xml"@,
        ExtractFault::NotAPptx => "无法读取 pptx: "@,
        ExtractFault::PptxEntry => "pptx 读取失败: "@,
        ExtractFault::Unreadable => ""@,
        ExtractFault::NotAWorkbook => "无法读取 xlsx: "@,
        ExtractFault::NoSheet => "xlsx 没有 sheet"@,
        ExtractFault::BadSheet => "读取 sheet 失败: "@,
    }
}

/// A failed extraction.
#[derive(Debug, PartialEq, Eq)]
pub struct ExtractError {
    pub kind: ExtractFault,
    pub detail: String,
}

impl View for ExtractError {
    type V = (ExtractFault, Seq<char>);

    open spec fn view(&self) -> (ExtractFault, Seq<char>) {
        (self.kind, self.detail@)
    }
}

impl ExtractError {
    /// An error of kind `kind` with nothing to add.
    pub fn bare(kind: ExtractFault) -> (e: ExtractError)
        ensures
            e@ == (kind, Seq::<char>::empty()),
    {
        ExtractError { kind, detail: String::new() }
    }

    /// An error of kind `kind` about `detail`.
    pub fn with(kind: ExtractFault, detail: String) -> (e: ExtractError)
        ensures
            e@ == (kind, detail@),
    {
        ExtractError { kind, detail }
    }

    /// The message for a user: the kind's text, then the detail.
    pub fn message(&self) -> (m: String)
        ensures
            m@ == extract_prefix(self.kind) + self.detail@,
    {
        let prefix = match self.kind {
            ExtractFault::UnsupportedFormat => "不支持的文件格式: .",
            ExtractFault::NothingReadable => "无法读取文件内容（可能是扫描版或加密文件）",
            ExtractFault::ScannedPdf => "无法提取文本，可能是扫描版或加密 PDF",
            ExtractFault::NotText => "stream did not contain valid UTF-8",
            ExtractFault::NotADocx => "无法读取 docx: ",
            ExtractFault::MissingDocument => "docx 格式异常，找不到 document.xml",
            ExtractFault::NotAPptx => "无法读取 pptx: ",
            ExtractFault::PptxEntry => "pptx 读取失败: ",
            ExtractFault::Unreadable => "",
            ExtractFault::NotAWorkbook => "无法读取 xlsx: ",
            ExtractFault::NoSheet => "xlsx 没有 sheet",
            ExtractFault::BadSheet => "读取 sheet 失败: ",
        };
        let mut out = chars_of(prefix);
        push_str(&mut out, self.detail.as_str());
        string_of(&out)
    }
}

} // verus!
