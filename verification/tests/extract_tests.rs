use fyla::document::{extract_text, extract_txt};
use fyla::error::{ExtractError, ExtractFault};
use fyla::extract::{clean_text, smart_truncate, strip_markup, strip_xml_tags, TEXT_BUDGET};
use fyla::office::{extract_docx, extract_pptx, parse_index, slide_number};
use fyla::sheets::{extract_xlsx, extract_xlsx_from, first_sheet, sheet_text, Workbook};
use std::io::Write;

const MARKER: &str = "\n\n[...中间内容省略...]\n\n";

fn archive(entries: &[(&str, &str)]) -> Vec<u8> {
    let mut writer = zip::ZipWriter::new(std::io::Cursor::new(Vec::new()));
    for (name, content) in entries {
        writer.start_file(*name, zip::write::SimpleFileOptions::default()).unwrap();
        writer.write_all(content.as_bytes()).unwrap();
    }
    writer.finish().unwrap().into_inner()
}

fn workbook(sheet_xml: &str) -> Vec<u8> {
    archive(&[
        (
            "[Content_Types].xml",
            "<?xml version=\"1.0\" encoding=\"UTF-8\"?><Types xmlns=\"http://schemas.openxmlformats.org/package/2006/content-types\"><Default Extension=\"rels\" ContentType=\"application/vnd.openxmlformats-package.relationships+xml\"/><Default Extension=\"xml\" ContentType=\"application/xml\"/><Override PartName=\"/xl/workbook.xml\" ContentType=\"application/vnd.openxmlformats-officedocument.spreadsheetml.sheet.main+xml\"/><Override PartName=\"/xl/worksheets/sheet1.xml\" ContentType=\"application/vnd.openxmlformats-officedocument.spreadsheetml.worksheet+xml\"/></Types>",
        ),
        (
            "_rels/.rels",
            "<?xml version=\"1.0\" encoding=\"UTF-8\"?><Relationships xmlns=\"http://schemas.openxmlformats.org/package/2006/relationships\"><Relationship Id=\"rId1\" Type=\"http://schemas.openxmlformats.org/officeDocument/2006/relationships/officeDocument\" Target=\"xl/workbook.xml\"/></Relationships>",
        ),
        (
            "xl/workbook.xml",
            "<?xml version=\"1.0\" encoding=\"UTF-8\"?><workbook xmlns=\"http://schemas.openxmlformats.org/spreadsheetml/2006/main\" xmlns:r=\"http://schemas.openxmlformats.org/officeDocument/2006/relationships\"><sheets><sheet name=\"First\" sheetId=\"1\" r:id=\"rId1\"/></sheets></workbook>",
        ),
        (
            "xl/_rels/workbook.xml.rels",
            "<?xml version=\"1.0\" encoding=\"UTF-8\"?><Relationships xmlns=\"http://schemas.openxmlformats.org/package/2006/relationships\"><Relationship Id=\"rId1\" Type=\"http://schemas.openxmlformats.org/officeDocument/2006/relationships/worksheet\" Target=\"worksheets/sheet1.xml\"/></Relationships>",
        ),
        ("xl/worksheets/sheet1.xml", sheet_xml),
    ])
}

/// Reads a workbook from bytes as a caller does: the names of the sheets,
/// and the rows of the sheet that the library asks for.
fn read_workbook(bytes: &[u8]) -> Workbook {
    let mut book = match calamine::open_workbook_auto_from_rs(std::io::Cursor::new(bytes)) {
        Ok(book) => book,
        Err(e) => return Workbook { sheets: Err(e.to_string()), first: None },
    };
    let sheets = Ok(calamine::Reader::sheet_names(&book));
    let first = first_sheet(&sheets).map(|name| {
        match calamine::Reader::worksheet_range(&mut book, &name) {
            Ok(range) => Ok(range
                .rows()
                .map(|row| {
                    row.iter()
                        .map(|cell| match cell {
                            calamine::Data::Empty => None,
                            other => Some(other.to_string()),
                        })
                        .collect()
                })
                .collect()),
            Err(e) => Err(e.to_string()),
        }
    });
    Workbook { sheets, first }
}

fn fault(r: Result<String, ExtractError>) -> (ExtractFault, String) {
    match r {
        Ok(t) => panic!("expected a failure, got {:?}", t),
        Err(e) => (e.kind, e.detail),
    }
}

#[test]
fn a_text_within_the_budget_is_not_cut() {
    assert_eq!(smart_truncate("short", 2000), "short");
    let exact: String = "x".repeat(2000);
    assert_eq!(smart_truncate(&exact, 2000), exact);
    assert_eq!(smart_truncate(&smart_truncate(&exact, 2000), 2000), exact);
    assert_eq!(smart_truncate("", 2000), "");
}

#[test]
fn a_long_text_keeps_three_quarters_of_the_budget_at_the_start() {
    let text: String = (0..2001).map(|i| char::from(b'a' + (i % 26) as u8)).collect();
    let cut = smart_truncate(&text, 2000);
    let expected = format!("{}{}{}", &text[..1500], MARKER, &text[1501..]);
    assert_eq!(cut, expected);
    assert_eq!(cut.chars().count(), 2000 + 18);
}

#[test]
fn cutting_counts_characters_not_bytes() {
    let text: String = "中".repeat(10) + &"文".repeat(10);
    let cut = smart_truncate(&text, 8);
    assert_eq!(cut, format!("{}{}{}", "中".repeat(6), MARKER, "文".repeat(2)));
    assert_eq!(smart_truncate("abcdefghij", 1), format!("{}j", MARKER));
    assert_eq!(smart_truncate("abcdefghij", 3), format!("ab{}j", MARKER));
    assert_eq!(smart_truncate("abc", 0), "abc");
}

#[test]
fn slide_markup_is_stripped() {
    assert_eq!(strip_xml_tags("<a:t>Hello</a:t><a:t>World</a:t>"), "Hello  World");
    assert_eq!(strip_xml_tags("<a:t>Hello</a:t> <a:t>World</a:t>"), "Hello   World");
    assert_eq!(strip_xml_tags("  <p>one\n\n two</p>  "), "one two");
    assert_eq!(strip_xml_tags("<only/>"), "");
    assert_eq!(strip_xml_tags("a > b"), "a  b");
    let chars: Vec<char> = "<w:t>Hi</w:t> there".chars().collect();
    let docx: String = strip_markup(&chars, true).iter().collect();
    assert_eq!(docx, " Hi  there");
    let slide: String = strip_markup(&chars, false).iter().collect();
    assert_eq!(slide, " Hi  there");
    let open: Vec<char> = "a<b".chars().collect();
    assert_eq!(strip_markup(&open, true).iter().collect::<String>(), "a ");
    assert_eq!(strip_markup(&open, false).iter().collect::<String>(), "a");
    let close: Vec<char> = "a>b".chars().collect();
    assert_eq!(strip_markup(&close, true).iter().collect::<String>(), "ab");
    assert_eq!(strip_markup(&close, false).iter().collect::<String>(), "a b");
}

#[test]
fn lines_are_trimmed_and_blank_lines_dropped() {
    assert_eq!(clean_text("  a  \r\n\r\n\tb\n   \nc"), "a\nb\nc");
    assert_eq!(clean_text("\n\n"), "");
    assert_eq!(clean_text("one"), "one");
}

#[test]
fn plain_text_is_read_as_utf8() {
    assert_eq!(extract_txt("  héllo \n\n wörld ".as_bytes()).unwrap(), "héllo\nwörld");
    assert_eq!(fault(extract_txt(&[0x66, 0xff, 0x67])), (ExtractFault::NotText, String::new()));
    assert_eq!(extract_text("/tmp/notes.MD", b" # Title \n\n body ", "", &Workbook::unread()).unwrap(), "# Title\nbody");
    assert_eq!(extract_text("a.markdown", b"x", "", &Workbook::unread()).unwrap(), "x");
}

#[test]
fn the_text_of_a_pdf_is_what_its_reader_gave() {
    assert_eq!(extract_text("report.PDF", b"%PDF-ignored", " Total: 5 \n\n Signed ", &Workbook::unread()).unwrap(), "Total: 5\nSigned");
    assert_eq!(
        fault(extract_text("scan.pdf", b"%PDF", "  \n ", &Workbook::unread())),
        (ExtractFault::NothingReadable, String::new())
    );
}

#[test]
fn an_unknown_extension_is_refused_by_name() {
    let e = extract_text("movie.MP4", b"", "", &Workbook::unread()).unwrap_err();
    assert_eq!(e.kind, ExtractFault::UnsupportedFormat);
    assert_eq!(e.detail, "mp4");
    assert_eq!(e.message(), "不支持的文件格式: .mp4");
    let none = extract_text("README", b"text", "", &Workbook::unread()).unwrap_err();
    assert_eq!(none.message(), "不支持的文件格式: .");
}

#[test]
fn extracted_text_is_cut_to_the_budget() {
    let long: String = "word ".repeat(1000);
    let text = extract_text("long.txt", long.as_bytes(), "", &Workbook::unread()).unwrap();
    let cleaned = long.trim().to_string();
    let chars: Vec<char> = cleaned.chars().collect();
    let head: String = chars[..1500].iter().collect();
    let tail: String = chars[chars.len() - 500..].iter().collect();
    assert_eq!(text, format!("{}{}{}", head, MARKER, tail));
    assert_eq!(TEXT_BUDGET, 2000);
}

#[test]
fn a_word_document_gives_the_text_of_its_main_part() {
    let bytes = archive(&[
        ("[Content_Types].xml", "<Types/>"),
        ("word/document.xml", "<w:document><w:p><w:t>Invoice</w:t></w:p>\n<w:p><w:t>Acme  Corp</w:t></w:p></w:document>"),
    ]);
    assert_eq!(extract_docx(&bytes).unwrap(), "Invoice     Acme Corp");
    assert_eq!(extract_text("x.docx", &bytes, "", &Workbook::unread()).unwrap(), "Invoice     Acme Corp");
}

#[test]
fn a_word_document_without_its_main_part_is_refused() {
    let bytes = archive(&[("other.xml", "<a/>")]);
    let e = extract_docx(&bytes).unwrap_err();
    assert_eq!(e.kind, ExtractFault::MissingDocument);
    assert_eq!(e.message(), "docx 格式异常，找不到 document.xml");
    let e = extract_docx(b"this is no archive").unwrap_err();
    assert_eq!(e.kind, ExtractFault::NotADocx);
    assert!(e.message().starts_with("无法读取 docx: "));
    assert!(e.message().len() > "无法读取 docx: ".len());
}

#[test]
fn slides_come_out_in_the_order_of_their_numbers() {
    let bytes = archive(&[
        ("ppt/slides/slide10.xml", "<a:t>Ten</a:t>"),
        ("ppt/slides/slide2.xml", "<a:t>Two</a:t><a:t>again</a:t>"),
        ("ppt/slides/slide3.xml", "<a:t>   </a:t>"),
        ("ppt/slides/_rels/slide1.xml.rels", "<x>rel</x>"),
        ("ppt/slides/slideX.xml", "<a:t>no number</a:t>"),
        ("ppt/slides/slide1.xml", "<a:t>One</a:t>"),
        ("ppt/presentation.xml", "<p/>"),
    ]);
    assert_eq!(extract_pptx(&bytes).unwrap(), "[Slide 1] One\n[Slide 2] Two  again\n[Slide 10] Ten");
    assert_eq!(extract_text("deck.pptx", &bytes, "", &Workbook::unread()).unwrap(), "[Slide 1] One\n[Slide 2] Two  again\n[Slide 10] Ten");
    let e = extract_pptx(b"nothing").unwrap_err();
    assert_eq!(e.kind, ExtractFault::NotAPptx);
    assert!(e.message().starts_with("无法读取 pptx: "));
    let empty = archive(&[("ppt/presentation.xml", "<p/>")]);
    assert_eq!(extract_pptx(&empty).unwrap(), "");
    assert_eq!(
        fault(extract_text("deck.pptx", &empty, "", &Workbook::unread())),
        (ExtractFault::NothingReadable, String::new())
    );
}

#[test]
fn slide_numbers_are_read_from_entry_names() {
    assert_eq!(slide_number("ppt/slides/slide12.xml"), Some(12));
    assert_eq!(slide_number("ppt/slides/slide+7.xml"), Some(7));
    assert_eq!(slide_number("ppt/slides/slide007.xml"), Some(7));
    assert_eq!(slide_number("ppt/slides/slide.xml"), None);
    assert_eq!(slide_number("ppt/slides/slide-1.xml"), None);
    assert_eq!(slide_number("ppt/slides/slide1.xml.rels"), None);
    assert_eq!(slide_number("ppt/slides/slide1"), None);
    assert_eq!(slide_number("slide1.xml"), None);
    assert_eq!(slide_number("ppt/slides/slide99999999999999999999999.xml"), None);
}

#[test]
fn indices_are_parsed_as_the_standard_library_parses_them() {
    for s in ["0", "42", "+42", "", "+", "-1", "4 2", "١", "18446744073709551615", "18446744073709551616", "000000000000000000000001"] {
        let chars: Vec<char> = s.chars().collect();
        assert_eq!(parse_index(&chars), s.parse::<usize>().ok(), "{:?}", s);
    }
}

#[test]
fn a_sheet_is_laid_out_in_lines_and_tabs() {
    let rows = vec![
        vec![Some("Name".to_string()), None, Some("Total".to_string())],
        vec![None, None, None],
        vec![],
        vec![Some("".to_string())],
        vec![Some("Acme".to_string()), Some("12.5".to_string())],
    ];
    assert_eq!(sheet_text(&rows), "Name\tTotal\n\nAcme\t12.5");
    assert_eq!(sheet_text(&vec![]), "");
    let many: Vec<Vec<Option<String>>> = (0..40).map(|i| vec![Some(format!("r{}", i))]).collect();
    let expected: Vec<String> = (0..30).map(|i| format!("r{}", i)).collect();
    assert_eq!(sheet_text(&many), expected.join("\n"));
}

#[test]
fn a_workbook_gives_the_rows_of_its_first_sheet() {
    let bytes = workbook(
        "<?xml version=\"1.0\" encoding=\"UTF-8\"?><worksheet xmlns=\"http://schemas.openxmlformats.org/spreadsheetml/2006/main\"><sheetData><row r=\"1\"><c r=\"A1\" t=\"inlineStr\"><is><t>Item</t></is></c><c r=\"B1\" t=\"inlineStr\"><is><t>Price</t></is></c></row><row r=\"2\"><c r=\"A2\" t=\"inlineStr\"><is><t>Pen</t></is></c><c r=\"B2\"><v>3</v></c></row></sheetData></worksheet>",
    );
    let book = read_workbook(&bytes);
    assert_eq!(book.sheets, Ok(vec!["First".to_string()]));
    assert_eq!(extract_xlsx(&book).unwrap(), "Item\tPrice\nPen\t3");
    assert_eq!(extract_text("prices.XLSX", b"", "", &book).unwrap(), "Item\tPrice\nPen\t3");
    assert_eq!(extract_text("prices.xls", b"", "", &book).unwrap(), "Item\tPrice\nPen\t3");
    let none = read_workbook(b"no workbook at all");
    let e = extract_xlsx(&none).unwrap_err();
    assert_eq!(e.kind, ExtractFault::NotAWorkbook);
    assert!(e.message().starts_with("无法读取 xlsx: "));
    assert!(e.message().len() > "无法读取 xlsx: ".len());
}

#[test]
fn a_workbook_is_read_from_what_its_reader_gave() {
    let rows = vec![vec![Some("a".to_string()), None, Some("b".to_string())], vec![None], vec![Some("c".to_string())]];
    assert_eq!(first_sheet(&Ok(vec!["One".to_string(), "Two".to_string()])), Some("One".to_string()));
    assert_eq!(first_sheet(&Ok(vec![])), None);
    assert_eq!(first_sheet(&Err("bad".to_string())), None);
    assert_eq!(extract_xlsx_from(Ok(vec!["One".to_string()]), Some(Ok(rows.clone()))).unwrap(), "a\tb\nc");
    assert_eq!(
        fault(extract_xlsx_from(Err("Cannot detect file format".to_string()), None)),
        (ExtractFault::NotAWorkbook, "Cannot detect file format".to_string())
    );
    assert_eq!(
        fault(extract_xlsx_from(Err("bad".to_string()), Some(Ok(rows.clone())))),
        (ExtractFault::NotAWorkbook, "bad".to_string())
    );
    assert_eq!(fault(extract_xlsx_from(Ok(vec![]), None)), (ExtractFault::NoSheet, String::new()));
    assert_eq!(fault(extract_xlsx_from(Ok(vec![]), Some(Ok(rows.clone())))), (ExtractFault::NoSheet, String::new()));
    let e = extract_xlsx_from(Ok(vec!["One".to_string()]), Some(Err("broken".to_string()))).unwrap_err();
    assert_eq!((e.kind, e.message().as_str()), (ExtractFault::BadSheet, "读取 sheet 失败: broken"));
    assert_eq!(
        fault(extract_xlsx_from(Ok(vec!["One".to_string()]), None)),
        (ExtractFault::BadSheet, String::new())
    );
    assert_eq!(
        fault(extract_text("empty.xlsx", b"", "", &Workbook { sheets: Ok(vec!["One".to_string()]), first: Some(Ok(vec![])) })),
        (ExtractFault::NothingReadable, String::new())
    );
    assert_eq!(fault(extract_text("a.xlsx", b"", "", &Workbook::unread())), (ExtractFault::NotAWorkbook, String::new()));
}

#[test]
fn cleaning_keeps_the_lines_that_the_standard_library_sees() {
    let samples = [
        "", "a", " a \n b ", "a\r\nb\r\n", "a\rb", "\r", "x\n\n\ny", "\u{3000}t\u{3000}\n",
        "one\r", "\n", " \n \n ", "a\n\rb", "tab\there \n",
    ];
    for text in samples {
        let expected: Vec<&str> = text.lines().map(|l| l.trim()).filter(|l| !l.is_empty()).collect();
        assert_eq!(clean_text(text), expected.join("\n"), "{:?}", text);
    }
}
