//! The sheet of the log: which text goes into which cell.
//!
//! The sheet has one row of titles and one row for each clip.  Of a clip
//! only the file name and the two timecodes are filled in; the other
//! columns are left for the people on set.

use crate::timeline::{RowView, TimelineRow};
use vstd::prelude::*;
use vstd::string::*;

verus! {

/// The column of the file name, counted from zero.
pub const FILE_COLUMN: u16 = 3;

/// The column of the timecode at which a clip comes in.
pub const TIMECODE_IN_COLUMN: u16 = 9;

/// The column of the timecode at which a clip goes out.
pub const TIMECODE_OUT_COLUMN: u16 = 10;

/// One cell of the sheet and the text that is written into it.  Rows and
/// columns are counted from zero.
#[derive(Clone, Debug, PartialEq, Eq)]
pub struct Cell {
    pub row: u32,
    pub column: u16,
    pub text: String,
}

/// A cell, as the contracts see it.
pub struct CellView {
    pub row: int,
    pub column: int,
    pub text: Seq<char>,
}

impl View for Cell {
    type V = CellView;

    open spec fn view(&self) -> CellView {
        CellView { row: self.row as int, column: self.column as int, text: self.text@ }
    }
}

impl DeepView for Cell {
    type V = CellView;

    open spec fn deep_view(&self) -> CellView {
        self@
    }
}

/// The titles of the columns, from the left.
pub open spec fn titles() -> Seq<Seq<char>> {
    seq![
        "Director"@,
        "Producer"@,
        "DOP"@,
        "File"@,
        "Roll"@,
        "Scene"@,
        "Slate"@,
        "Take"@,
        "Comments"@,
        "Timecode In"@,
        "Timecode Out"@,
        "Usable"@,
    ]
}

/// The cells of the title row.
pub open spec fn title_cells() -> Seq<CellView> {
    Seq::new(12, |column: int| CellView { row: 0, column, text: titles()[column] })
}

/// The cells of the clip that is the `index`th of the log, counted from
/// zero: it stands in the row after as many clips and the title row.
pub open spec fn clip_cells(index: int, row: RowView) -> Seq<CellView> {
    seq![
        CellView { row: index + 1, column: FILE_COLUMN as int, text: row.file_name },
        CellView { row: index + 1, column: TIMECODE_IN_COLUMN as int, text: row.timecode_in },
        CellView { row: index + 1, column: TIMECODE_OUT_COLUMN as int, text: row.timecode_out },
    ]
}

/// The cells of all the clips, in the order of the clips.
pub open spec fn log_cells(rows: Seq<RowView>) -> Seq<CellView>
    decreases rows.len(),
{
    if rows.len() == 0 {
        Seq::empty()
    } else {
        log_cells(rows.drop_last()) + clip_cells(rows.len() - 1, rows.last())
    }
}

/// The cells of the sheet, in the order in which they are written: the
/// titles, then the clips.
pub open spec fn sheet_spec(rows: Seq<RowView>) -> Seq<CellView> {
    title_cells() + log_cells(rows)
}

/// The path of the workbook that is called `name` and stands in `folder`.
pub open spec fn workbook_path_spec(folder: Seq<char>, name: Seq<char>) -> Seq<char> {
    folder + "/"@ + name + ".xlsx"@
}

/// The titles of the columns, from the left.
pub fn title_row() -> (row: Vec<String>)
    ensures
        row.deep_view() == titles(),
{
    let mut row: Vec<String> = Vec::new();
    row.push("Director".to_owned());
    row.push("Producer".to_owned());
    row.push("DOP".to_owned());
    row.push("File".to_owned());
    row.push("Roll".to_owned());
    row.push("Scene".to_owned());
    row.push("Slate".to_owned());
    row.push("Take".to_owned());
    row.push("Comments".to_owned());
    row.push("Timecode In".to_owned());
    row.push("Timecode Out".to_owned());
    row.push("Usable".to_owned());
    row
}

/// The cells of the sheet for `rows`, in the order in which they are to be
/// written.
pub fn sheet_cells(rows: &Vec<TimelineRow>) -> (cells: Vec<Cell>)
    requires
        rows.len() < u32::MAX,
    ensures
        cells.deep_view() == sheet_spec(rows.deep_view()),
{
    let head = title_row();
    let mut cells: Vec<Cell> = Vec::new();
    let mut column: u16 = 0;
    assert(head@.len() == head.deep_view().len());
    while column < 12
        invariant
            column <= 12,
            head@.len() == 12,
            head.deep_view() == titles(),
            cells.deep_view() == title_cells().take(column as int),
        decreases 12 - column,
    {
        let ghost before = cells.deep_view();
        let cell = Cell { row: 0, column, text: head[column as usize].clone() };
        cells.push(cell);
        column += 1;
        assert(title_cells().take(column as int) =~= before.push(cell@));
    }
    let ghost all = rows.deep_view();
    let mut index: usize = 0;
    while index < rows.len()
        invariant
            index <= rows.len() < u32::MAX,
            all == rows.deep_view(),
            cells.deep_view() == sheet_spec(all.take(index as int)),
        decreases rows.len() - index,
    {
        let ghost before = cells.deep_view();
        let row = &rows[index];
        let line: u32 = (index + 1) as u32;
        let name = Cell { row: line, column: FILE_COLUMN, text: row.file_name.clone() };
        let came_in = Cell { row: line, column: TIMECODE_IN_COLUMN, text: row.timecode_in.clone() };
        let went_out = Cell {
            row: line,
            column: TIMECODE_OUT_COLUMN,
            text: row.timecode_out.clone(),
        };
        cells.push(name);
        cells.push(came_in);
        cells.push(went_out);
        proof {
            let taken = all.take(index + 1);
            assert(taken.drop_last() =~= all.take(index as int));
            assert(title_cells() + (log_cells(all.take(index as int)) + clip_cells(
                index as int,
                row@,
            )) =~= before + clip_cells(index as int, row@));
        }
        index += 1;
    }
    assert(all.take(index as int) =~= all);
    cells
}

/// The path of the workbook that is called `name` and stands in `folder`.
pub fn workbook_path(folder: &str, name: &str) -> (path: String)
    ensures
        path@ == workbook_path_spec(folder@, name@),
{
    let mut path = folder.to_owned();
    path.append("/");
    path.append(name);
    path.append(".xlsx");
    path
}

/// A log without clips gives a sheet that holds the titles and nothing
/// else.
pub proof fn lemma_empty_sheet()
    ensures
        sheet_spec(Seq::empty()) == title_cells(),
{
}

/// Where the cells of a clip stand among the cells of the sheet: the three
/// of the clip at `index` follow the twelve titles and the cells of the clips
/// before it.
pub proof fn lemma_sheet_layout(rows: Seq<RowView>, index: int)
    requires
        0 <= index < rows.len(),
    ensures
        sheet_spec(rows).len() == 12 + 3 * rows.len(),
        sheet_spec(rows).subrange(0, 12) == title_cells(),
        sheet_spec(rows).subrange(12 + 3 * index, 15 + 3 * index) == clip_cells(index, rows[index]),
{
    lemma_log_cells(rows, index);
}

/// The cells of the clip at `index` are the three that follow the cells of
/// the clips before it.
proof fn lemma_log_cells(rows: Seq<RowView>, index: int)
    requires
        0 <= index < rows.len(),
    ensures
        log_cells(rows).len() == 3 * rows.len(),
        log_cells(rows).subrange(3 * index, 3 * index + 3) == clip_cells(index, rows[index]),
    decreases rows.len(),
{
    let before = rows.drop_last();
    lemma_log_cells_len(before);
    if index < rows.len() - 1 {
        lemma_log_cells(before, index);
    }
}

/// Each clip has three cells.
proof fn lemma_log_cells_len(rows: Seq<RowView>)
    ensures
        log_cells(rows).len() == 3 * rows.len(),
    decreases rows.len(),
{
    if rows.len() > 0 {
        lemma_log_cells_len(rows.drop_last());
    }
}

} // verus!
