//! Sheets as grids of cell texts, the cell accessor, and row windows.

use vstd::prelude::*;

use crate::text::{trim_text, trimmed};

verus! {

/// A grid of cells: rows of cell texts, as the workbook holds them.
pub type Grid = Seq<Seq<Seq<char>>>;

/// One tab of a workbook: its name and its rows of cell texts.
#[derive(Clone, Debug)]
pub struct Sheet {
    pub name: String,
    pub rows: Vec<Vec<String>>,
}

/// The mathematical content of a `Sheet`.
pub struct SheetView {
    pub name: Seq<char>,
    pub rows: Grid,
}

impl View for Sheet {
    type V = SheetView;

    open spec fn view(&self) -> SheetView {
        SheetView { name: self.name@, rows: self.rows.deep_view() }
    }
}

/// The normalized text of column `col` of a row: the cell trimmed of
/// surrounding white space, or empty where the row has no such column.
pub open spec fn cell_text(row: Seq<Seq<char>>, col: int) -> Seq<char> {
    if 0 <= col < row.len() {
        trimmed(row[col])
    } else {
        Seq::empty()
    }
}

/// The normalized text at row `i`, column `col` of a grid; empty outside it.
pub open spec fn cell(g: Grid, i: int, col: int) -> Seq<char> {
    if 0 <= i < g.len() {
        cell_text(g[i], col)
    } else {
        Seq::empty()
    }
}

/// An inclusive range of row numbers, `start..=end`, clamped to the grid
/// when it is scanned.
#[derive(Clone, Copy, Debug, PartialEq, Eq, Structural)]
pub struct RowWindow {
    pub start: usize,
    pub end: usize,
}

/// One past the last row of a window `..=end` over a grid of `len` rows.
pub open spec fn window_hi(len: int, end: int) -> int {
    if end < len {
        end + 1
    } else {
        len
    }
}

/// The cell text at column `col` of `row`, trimmed; empty when the row is
/// shorter. Never fails.
pub fn get_cell_value(row: &Vec<String>, col: usize) -> (r: String)
    ensures
        r@ == cell_text(row.deep_view(), col as int),
{
    if col < row.len() {
        trim_text(row[col].as_str())
    } else {
        String::new()
    }
}

/// One past the last row that a window reaches in `rows`.
pub fn window_limit(rows: &Vec<Vec<String>>, window: RowWindow) -> (r: usize)
    ensures
        r == window_hi(rows@.len() as int, window.end as int),
        r <= rows@.len(),
{
    if window.end < rows.len() {
        window.end + 1
    } else {
        rows.len()
    }
}

} // verus!
