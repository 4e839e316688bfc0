//! The layout of a spreadsheet in the read-only office preview: which sheet
//! shows, how many columns the grid has, and how its rows line up.

use vstd::prelude::*;

verus! {

/// One sheet: its name and its rows of cell texts (the first row is the
/// header).
pub struct Sheet {
    pub name: String,
    pub rows: Vec<Vec<String>>,
}

/// The sheets of a spreadsheet.
pub struct SpreadsheetData {
    pub sheets: Vec<Sheet>,
}

/// The sheet that shows when sheet `active` is chosen among `count` sheets:
/// the chosen one, or the last one when the choice is past the end.
pub open spec fn shown_sheet(active: usize, count: usize) -> usize {
    let last = if count == 0 { 0 } else { (count - 1) as usize };
    if active < last {
        active
    } else {
        last
    }
}

/// The length of the longest of the rows (0 when there are none).
pub open spec fn max_row_len(rows: Seq<Vec<String>>, n: nat) -> nat
    decreases n,
{
    if n == 0 {
        0
    } else {
        let before = max_row_len(rows, (n - 1) as nat);
        let len = rows[n - 1]@.len();
        if len > before {
            len
        } else {
            before
        }
    }
}

/// How a sheet shows.
pub enum SheetLayout {
    /// The sheet does not exist or has no rows.
    Empty { sheet: usize },
    /// A grid of `columns` columns: the header row, then `data_rows` rows.
    Grid { sheet: usize, columns: usize, data_rows: usize },
}

/// The sheet that shows when sheet `active` is chosen.
pub fn active_sheet_index(active: usize, count: usize) -> (sheet: usize)
    ensures
        sheet == shown_sheet(active, count),
{
    let last = if count == 0 {
        0
    } else {
        count - 1
    };
    if active < last {
        active
    } else {
        last
    }
}

/// The number of columns of a grid of these rows: the length of the longest.
pub fn column_count(rows: &Vec<Vec<String>>) -> (count: usize)
    ensures
        count == max_row_len(rows@, rows@.len()),
        forall|i: int| 0 <= i < rows@.len() ==> (#[trigger] rows@[i])@.len() <= count,
        rows@.len() == 0 ==> count == 0,
        rows@.len() > 0 ==> exists|i: int| 0 <= i < rows@.len() && rows@[i]@.len() == count,
{
    proof {
        lemma_max_row_len(rows@, rows@.len());
    }
    let mut count: usize = 0;
    let n = rows.len();
    let mut i: usize = 0;
    while i < n
        invariant
            n == rows@.len(),
            0 <= i <= n,
            count == max_row_len(rows@, i as nat),
        decreases n - i,
    {
        let len = rows[i].len();
        if len > count {
            count = len;
        }
        i = i + 1;
    }
    count
}

/// How many empty cells follow a row of `row_len` cells in a grid of
/// `columns` columns, so that its borders line up.
pub fn padding_cells(row_len: usize, columns: usize) -> (pad: usize)
    ensures
        pad == if row_len < columns {
            (columns - row_len) as usize
        } else {
            0
        },
{
    if row_len < columns {
        columns - row_len
    } else {
        0
    }
}

/// Row `display_index` of the grid's body is row `display_index + 1` of the
/// sheet (row 0 is the header) and is numbered `display_index + 2`.
pub fn body_row(display_index: usize) -> (row: (usize, usize))
    requires
        display_index + 2 <= usize::MAX,
    ensures
        row.0 == display_index + 1,
        row.1 == display_index + 2,
{
    (display_index + 1, display_index + 2)
}

/// How a spreadsheet shows when sheet `active` is chosen.
pub fn sheet_layout(data: &SpreadsheetData, active: usize) -> (layout: SheetLayout)
    ensures
        ({
            let s = shown_sheet(active, data.sheets@.len() as usize);
            if s >= data.sheets@.len() || data.sheets@[s as int].rows@.len() == 0 {
                layout == (SheetLayout::Empty { sheet: s })
            } else {
                let rows = data.sheets@[s as int].rows@;
                layout == (SheetLayout::Grid {
                    sheet: s,
                    columns: max_row_len(rows, rows.len()) as usize,
                    data_rows: (rows.len() - 1) as usize,
                })
            }
        }),
{
    let s = active_sheet_index(active, data.sheets.len());
    if s >= data.sheets.len() {
        return SheetLayout::Empty { sheet: s };
    }
    let rows = &data.sheets[s].rows;
    if rows.len() == 0 {
        return SheetLayout::Empty { sheet: s };
    }
    SheetLayout::Grid { sheet: s, columns: column_count(rows), data_rows: rows.len() - 1 }
}


/// A spreadsheet with sheets always shows one of them.
pub proof fn lemma_shown_sheet_exists(active: usize, count: usize)
    requires
        count > 0,
    ensures
        shown_sheet(active, count) < count,
        active < count ==> shown_sheet(active, count) == active,
{
}


/// The grid is as wide as the longest row, the header included: no row is
/// longer, and some row (when there is one) is exactly that long; with no
/// rows the grid has no columns.
pub proof fn lemma_max_row_len(rows: Seq<Vec<String>>, n: nat)
    requires
        n <= rows.len(),
    ensures
        forall|i: int| 0 <= i < n ==> (#[trigger] rows[i])@.len() <= max_row_len(rows, n),
        n == 0 ==> max_row_len(rows, n) == 0,
        n > 0 ==> exists|i: int| 0 <= i < n && rows[i]@.len() == max_row_len(rows, n),
    decreases n,
{
    if n > 0 {
        lemma_max_row_len(rows, (n - 1) as nat);
        if n > 1 {
            let i = choose|i: int| 0 <= i < n - 1 && rows[i]@.len() == max_row_len(
                rows,
                (n - 1) as nat,
            );
            if rows[n - 1]@.len() <= max_row_len(rows, (n - 1) as nat) {
                assert(rows[i]@.len() == max_row_len(rows, n));
            } else {
                assert(rows[n - 1]@.len() == max_row_len(rows, n));
            }
        } else {
            assert(rows[0]@.len() == max_row_len(rows, n));
        }
    }
}

} // verus!
