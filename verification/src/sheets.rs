//! The text of a spreadsheet: the first rows of its first sheet, a line for
//! each row that holds anything, the cells of a row parted by tabs.
//!
//! The caller opens the workbook with its spreadsheet reader and hands in
//! the names of the sheets and the rows of the first of them; which sheet is
//! taken, which rows and cells count and how they are laid out is decided
//! here.

use vstd::prelude::*;
use crate::error::{ExtractError, ExtractFault};
use crate::office::outcome;
use crate::text::{chars_of, join_of, opt_text, push_joined, string_of, strings};

verus! {

/// How many rows of a sheet are read.
pub const SHEET_ROWS: usize = 30;

/// What a cell holds, as text; nothing for an empty cell.
pub open spec fn row_view(row: Seq<Option<String>>) -> Seq<Option<Seq<char>>> {
    row.map_values(
        |c: Option<String>|
            match c {
                Some(s) => Some(s@),
                None => None,
            },
    )
}

/// The views of the rows of a sheet.
pub open spec fn rows_view(rows: Seq<Vec<Option<String>>>) -> Seq<Seq<Option<Seq<char>>>> {
    rows.map_values(|r: Vec<Option<String>>| row_view(r@))
}

/// The view of what listing a workbook's sheets gave.
pub open spec fn sheets_view(r: Result<Vec<String>, String>) -> Result<Seq<Seq<char>>, Seq<char>> {
    match r {
        Ok(v) => Ok(strings(v@)),
        Err(e) => Err(e@),
    }
}

/// The view of what reading a sheet gave.
pub open spec fn cells_view(r: Result<Vec<Vec<Option<String>>>, String>) -> Result<
    Seq<Seq<Option<Seq<char>>>>,
    Seq<char>,
> {
    match r {
        Ok(v) => Ok(rows_view(v@)),
        Err(e) => Err(e@),
    }
}

/// What the caller's reader made of a workbook.
#[derive(Debug, PartialEq, Eq)]
pub struct Workbook {
    /// The names of the sheets, in the workbook's order; or the reader's
    /// words on why the file is no workbook.
    pub sheets: Result<Vec<String>, String>,
    /// The rows of the used range of the first sheet, each cell as it is
    /// displayed and an empty cell as nothing; or the reader's words on why
    /// the sheet cannot be read. Nothing where no sheet was read.
    pub first: Option<Result<Vec<Vec<Option<String>>>, String>>,
}

/// The view of a workbook.
pub struct WorkbookView {
    pub sheets: Result<Seq<Seq<char>>, Seq<char>>,
    pub first: Option<Result<Seq<Seq<Option<Seq<char>>>>, Seq<char>>>,
}

impl View for Workbook {
    type V = WorkbookView;

    open spec fn view(&self) -> WorkbookView {
        WorkbookView {
            sheets: sheets_view(self.sheets),
            first: match self.first {
                Some(r) => Some(cells_view(r)),
                None => None,
            },
        }
    }
}

/// The sheet whose rows are read: the first, where the workbook could be
/// opened and has a sheet.
pub open spec fn first_sheet_of(sheets: Result<Seq<Seq<char>>, Seq<char>>) -> Option<Seq<char>> {
    match sheets {
        Ok(names) => if names.len() > 0 {
            Some(names[0])
        } else {
            None
        },
        Err(_) => None,
    }
}

/// The name of the sheet that the caller is to read, given what listing the
/// sheets gave; nothing where there is no sheet to read.
pub fn first_sheet(sheets: &Result<Vec<String>, String>) -> (r: Option<String>)
    ensures
        opt_text(r) == first_sheet_of(sheets_view(*sheets)),
{
    match sheets {
        Ok(names) => if names.len() > 0 {
            Some(names[0].clone())
        } else {
            None
        },
        Err(_) => None,
    }
}

impl Workbook {
    /// The workbook of a file that was not opened as one, for files that
    /// are no spreadsheets.
    pub fn unread() -> (w: Workbook)
        ensures
            w@ == (WorkbookView { sheets: Err(Seq::<char>::empty()), first: None }),
    {
        Workbook { sheets: Err(String::new()), first: None }
    }
}

/// The cells of a row that hold something, in order.
pub open spec fn filled(row: Seq<Option<Seq<char>>>) -> Seq<Seq<char>>
    decreases row.len(),
{
    if row.len() == 0 {
        Seq::empty()
    } else {
        match row.last() {
            Some(c) => filled(row.drop_last()).push(c),
            None => filled(row.drop_last()),
        }
    }
}

/// A line for each row that holds a cell: its filled cells parted by tabs.
pub open spec fn sheet_lines(rows: Seq<Seq<Option<Seq<char>>>>) -> Seq<Seq<char>>
    decreases rows.len(),
{
    if rows.len() == 0 {
        Seq::empty()
    } else {
        let rest = sheet_lines(rows.drop_last());
        let cells = filled(rows.last());
        if cells.len() > 0 {
            rest.push(join_of(cells, "\t"@))
        } else {
            rest
        }
    }
}

/// The text of a sheet: the lines of its first `SHEET_ROWS` rows.
pub open spec fn sheet_text_of(rows: Seq<Seq<Option<Seq<char>>>>) -> Seq<char> {
    let n = if rows.len() < SHEET_ROWS {
        rows.len() as int
    } else {
        SHEET_ROWS as int
    };
    join_of(sheet_lines(rows.take(n)), "\n"@)
}

/// The filled cells of `row`, parted by tabs, and how many there are.
pub fn row_line(row: &Vec<Option<String>>) -> (r: (Vec<char>, usize))
    ensures
        r.0@ == join_of(filled(row_view(row@)), "\t"@),
        r.1 == filled(row_view(row@)).len(),
{
    let ghost all = row_view(row@);
    let mut out: Vec<char> = Vec::new();
    let mut count: usize = 0;
    let mut i: usize = 0;
    while i < row.len()
        invariant
            i <= row.len(),
            all == row_view(row@),
            count == filled(all.take(i as int)).len(),
            count <= i,
            out@ == join_of(filled(all.take(i as int)), "\t"@),
        decreases row.len() - i,
    {
        assert(all.take(i + 1).drop_last() == all.take(i as int));
        assert(all.take(i + 1).last() == all[i as int]);
        match &row[i] {
            Some(cell) => {
                let piece = chars_of(cell.as_str());
                assert(filled(all.take(i + 1)).drop_last() == filled(all.take(i as int)));
                push_joined(&mut out, count == 0, "\t", &piece);
                count += 1;
            },
            None => {},
        }
        i += 1;
    }
    assert(all.take(row.len() as int) == all);
    (out, count)
}

/// The text of a sheet, from its rows.
pub fn sheet_text(rows: &Vec<Vec<Option<String>>>) -> (r: String)
    ensures
        r@ == sheet_text_of(rows_view(rows@)),
{
    let n = if rows.len() < SHEET_ROWS {
        rows.len()
    } else {
        SHEET_ROWS
    };
    let ghost all = rows_view(rows@).take(n as int);
    let mut out: Vec<char> = Vec::new();
    let mut first = true;
    let mut i: usize = 0;
    while i < n
        invariant
            i <= n <= rows.len(),
            all == rows_view(rows@).take(n as int),
            out@ == join_of(sheet_lines(all.take(i as int)), "\n"@),
            first == (sheet_lines(all.take(i as int)).len() == 0),
        decreases n - i,
    {
        assert(all.take(i + 1).drop_last() == all.take(i as int));
        assert(all.take(i + 1).last() == row_view(rows@[i as int]@));
        let (line, count) = row_line(&rows[i]);
        if count > 0 {
            assert(sheet_lines(all.take(i + 1)).drop_last() == sheet_lines(all.take(i as int)));
            push_joined(&mut out, first, "\n", &line);
            first = false;
        }
        i += 1;
    }
    assert(all.take(n as int) == all);
    string_of(&out)
}

/// The text of a workbook, from what listing its sheets gave and what
/// reading the first of them gave. A file that is no workbook is refused
/// with the reader's words, and so is a first sheet that cannot be read; a
/// workbook without a sheet is refused too. A first sheet that was not read
/// counts as one that cannot be read.
pub open spec fn workbook_text_from(
    sheets: Result<Seq<Seq<char>>, Seq<char>>,
    first: Option<Result<Seq<Seq<Option<Seq<char>>>>, Seq<char>>>,
) -> Result<Seq<char>, (ExtractFault, Seq<char>)> {
    match sheets {
        Err(e) => Err((ExtractFault::NotAWorkbook, e)),
        Ok(names) => if names.len() == 0 {
            Err((ExtractFault::NoSheet, Seq::empty()))
        } else {
            match first {
                None => Err((ExtractFault::BadSheet, Seq::empty())),
                Some(Err(e)) => Err((ExtractFault::BadSheet, e)),
                Some(Ok(rows)) => Ok(sheet_text_of(rows)),
            }
        },
    }
}

/// The text of a workbook.
pub open spec fn xlsx_text_of(book: WorkbookView) -> Result<Seq<char>, (ExtractFault, Seq<char>)> {
    workbook_text_from(book.sheets, book.first)
}

/// The text of a workbook: that of the first rows of its first sheet.
pub fn extract_xlsx(book: &Workbook) -> (r: Result<String, ExtractError>)
    ensures
        outcome(r) == xlsx_text_of(book@),
{
    let names = match &book.sheets {
        Ok(names) => names,
        Err(e) => {
            return Err(ExtractError::with(ExtractFault::NotAWorkbook, e.clone()));
        },
    };
    if names.len() == 0 {
        return Err(ExtractError::bare(ExtractFault::NoSheet));
    }
    match &book.first {
        None => Err(ExtractError::bare(ExtractFault::BadSheet)),
        Some(Err(e)) => Err(ExtractError::with(ExtractFault::BadSheet, e.clone())),
        Some(Ok(rows)) => Ok(sheet_text(rows)),
    }
}

/// The text of a workbook, from what listing its sheets gave and what
/// reading the first of them gave.
pub fn extract_xlsx_from(
    sheets: Result<Vec<String>, String>,
    first: Option<Result<Vec<Vec<Option<String>>>, String>>,
) -> (r: Result<String, ExtractError>)
    ensures
        outcome(r) == workbook_text_from(
            sheets_view(sheets),
            match first {
                Some(x) => Some(cells_view(x)),
                None => None,
            },
        ),
{
    let book = Workbook { sheets, first };
    extract_xlsx(&book)
}

} // verus!
