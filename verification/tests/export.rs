use autotclog::export::{
    sheet_cells, title_row, workbook_path, Cell, FILE_COLUMN, TIMECODE_IN_COLUMN,
    TIMECODE_OUT_COLUMN,
};
use autotclog::timeline::{build_timeline, ClipMetadata, TimelineRow};

fn cell(row: u32, column: u16, text: &str) -> Cell {
    Cell { row, column, text: text.to_string() }
}

const TITLES: [&str; 12] = [
    "Director",
    "Producer",
    "DOP",
    "File",
    "Roll",
    "Scene",
    "Slate",
    "Take",
    "Comments",
    "Timecode In",
    "Timecode Out",
    "Usable",
];

#[test]
fn the_title_row_has_twelve_titles() {
    assert_eq!(title_row(), TITLES);
}

#[test]
fn the_columns_of_a_clip_stand_under_their_titles() {
    assert_eq!(TITLES[FILE_COLUMN as usize], "File");
    assert_eq!(TITLES[TIMECODE_IN_COLUMN as usize], "Timecode In");
    assert_eq!(TITLES[TIMECODE_OUT_COLUMN as usize], "Timecode Out");
    assert_eq!((FILE_COLUMN, TIMECODE_IN_COLUMN, TIMECODE_OUT_COLUMN), (3, 9, 10));
}

#[test]
fn a_sheet_without_clips_holds_the_titles_only() {
    let cells = sheet_cells(&Vec::new());
    let titles: Vec<Cell> =
        TITLES.iter().enumerate().map(|(column, title)| cell(0, column as u16, title)).collect();
    assert_eq!(cells, titles);
}

#[test]
fn a_sheet_holds_three_cells_for_each_clip() {
    let rows = vec![
        TimelineRow {
            file_name: "a.mp4".to_string(),
            timecode_in: "00:00:00:00".to_string(),
            timecode_out: "00:00:02:00".to_string(),
        },
        TimelineRow {
            file_name: "b.mp4".to_string(),
            timecode_in: "00:00:02:01".to_string(),
            timecode_out: "00:00:05:00".to_string(),
        },
    ];
    let cells = sheet_cells(&rows);
    assert_eq!(cells.len(), 12 + 3 * 2);
    assert_eq!(cells[..12], sheet_cells(&Vec::new())[..]);
    assert_eq!(
        cells[12..],
        [
            cell(1, 3, "a.mp4"),
            cell(1, 9, "00:00:00:00"),
            cell(1, 10, "00:00:02:00"),
            cell(2, 3, "b.mp4"),
            cell(2, 9, "00:00:02:01"),
            cell(2, 10, "00:00:05:00"),
        ]
    );
}

#[test]
fn a_timeline_goes_onto_the_sheet_in_its_order() {
    let clips: Vec<ClipMetadata> = ["z.mp4", "a.mp4", "m.mp4"]
        .iter()
        .map(|name| ClipMetadata {
            file_path: format!("/rushes/{name}"),
            file_name: name.to_string(),
            fps: 25,
            frame_count: 25,
        })
        .collect();
    let rows = build_timeline(&clips, "10:00:00:00").unwrap();
    let cells = sheet_cells(&rows);
    let files: Vec<(u32, &str)> = cells
        .iter()
        .filter(|cell| cell.row > 0 && cell.column == FILE_COLUMN)
        .map(|cell| (cell.row, cell.text.as_str()))
        .collect();
    assert_eq!(files, [(1, "z.mp4"), (2, "a.mp4"), (3, "m.mp4")]);
    let last: Vec<&str> =
        cells.iter().filter(|cell| cell.row == 3).map(|cell| cell.text.as_str()).collect();
    assert_eq!(last, ["m.mp4", "10:00:02:01", "10:00:03:00"]);
}

#[test]
fn the_workbook_stands_in_the_folder_under_its_name() {
    assert_eq!(workbook_path("/rushes", "day 1"), "/rushes/day 1.xlsx");
    assert_eq!(workbook_path("", ""), "/.xlsx");
}
