//! The trusted boundary to `umya_spreadsheet`'s workbook.  The workbook is
//! opaque to verification; its observable state is named by two spec
//! functions, and the two wrappers below say how the operations the sheet
//! builder uses change that state.

use vstd::prelude::*;

verus! {

/// Declares `umya_spreadsheet::Workbook` so that verified signatures can
/// carry it.  A workbook value is opaque; it is read and changed only
/// through the names and wrappers below.
#[verifier::external_type_specification]
#[verifier::external_body]
pub struct ExWorkbook(umya_spreadsheet::Workbook);

/// The names of the sheets a workbook holds.
pub uninterp spec fn book_sheet_names(book: umya_spreadsheet::Workbook) -> Set<Seq<char>>;

/// The text of every cell of a workbook that holds a value, keyed by sheet
/// name and 1-based (column, row) coordinates.
pub uninterp spec fn book_cells(book: umya_spreadsheet::Workbook) -> Map<
    (Seq<char>, u32, u32),
    Seq<char>,
>;

/// Relies on `Workbook::new_sheet`: it appends an empty worksheet of that
/// name, whose cells hold no values, and refuses — leaving the workbook
/// unchanged — exactly when the name is already taken
/// (`Workbook::check_sheet_name` checks nothing else).  Either way the
/// named sheet exists afterwards and no cell value changes.
#[verifier::external_body]
pub(crate) fn add_sheet(book: &mut umya_spreadsheet::Workbook, name: &str)
    ensures
        book_sheet_names(*final(book)) == book_sheet_names(*old(book)).insert(name@),
        book_cells(*final(book)) == book_cells(*old(book)),
{
    let _ = book.new_sheet(name);
}

/// Relies on `Workbook::sheet_by_name_mut` to find the sheet — it exists
/// by the precondition — on `Worksheet::cell_mut` to reach the cell at the
/// 1-based coordinates, creating it if need be, and on
/// `Cell::set_value_string`, which stores exactly the given text (as
/// `CellRawValue::String`, returned verbatim by `Cell::value`).
#[verifier::external_body]
pub(crate) fn set_sheet_cell(
    book: &mut umya_spreadsheet::Workbook,
    name: &str,
    col: u32,
    row: u32,
    value: &str,
)
    requires
        book_sheet_names(*old(book)).contains(name@),
        col >= 1,
        row >= 1,
    ensures
        book_sheet_names(*final(book)) == book_sheet_names(*old(book)),
        book_cells(*final(book)) == book_cells(*old(book)).insert((name@, col, row), value@),
{
    if let Ok(sheet) = book.sheet_by_name_mut(name) {
        sheet.cell_mut((col, row)).set_value_string(value);
    }
}

} // verus!
