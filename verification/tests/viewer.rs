use sqlite_viewer::db::{
    CellValue, ColumnInfo, DbObject, DbObjectKind, SqlValue, TableInfoRow, page_from_rows,
};
use sqlite_viewer::viewer::{
    EditorBarLabel, JobStep, PageJob, PagePayload, PageRequest, RowRange, TableState,
    ViewerAction, ViewerState, first_browsable_object, PAGE_SIZE,
};

fn object(name: &str, kind: DbObjectKind) -> DbObject {
    DbObject { name: name.into(), kind, tbl_name: None, sql: None }
}

fn column(name: &str, pk: i64) -> ColumnInfo {
    ColumnInfo::from_table_info(
        TableInfoRow { name: name.into(), declared_type: "INTEGER".into(), not_null: false, pk },
        1,
    )
}

fn payload(page: i64, rows: Vec<Vec<CellValue>>) -> PagePayload {
    PagePayload { columns: vec![column("id", 1), column("name", 0)], rows, total: 250, page, has_more: true }
}

fn load_request(action: ViewerAction) -> PageRequest {
    match action {
        ViewerAction::LoadPage(r) => r,
        _ => panic!("expected a page load"),
    }
}

fn ready_viewer() -> ViewerState {
    let (mut state, _) = ViewerState::new();
    let action = state.objects_loaded(Ok(vec![
        object("idx", DbObjectKind::Index),
        object("users", DbObjectKind::Table),
        object("v_users", DbObjectKind::View),
    ]));
    let r = load_request(action);
    assert_eq!((r.name.as_str(), r.page, r.offset), ("users", 0, 0));
    state.page_loaded(Ok(payload(
        0,
        vec![
            vec![CellValue::Integer(1), CellValue::Text("Alice".into())],
            vec![CellValue::Integer(2), CellValue::Null],
        ],
    )));
    state
}

#[test]
fn opening_lists_objects_then_first_table() {
    let (mut state, action) = ViewerState::new();
    assert!(matches!(action, ViewerAction::ListObjects));
    assert!(state.loading);
    assert!(matches!(state.reload_objects(), ViewerAction::Nothing));
    let state = ready_viewer();
    assert_eq!(state.active_object.as_deref(), Some("users"));
    assert!(!state.loading);
    match &state.table {
        TableState::Ready { page, has_prev, has_more, total, rows, .. } => {
            assert_eq!((*page, *has_prev, *has_more, *total, rows.len()), (0, false, true, 250, 2));
        }
        _ => panic!("expected a page"),
    }
}

#[test]
fn no_browsable_object_shows_empty() {
    let (mut state, _) = ViewerState::new();
    let action = state.objects_loaded(Ok(vec![object("trg", DbObjectKind::Trigger)]));
    assert!(matches!(action, ViewerAction::Nothing));
    assert!(matches!(state.table, TableState::Empty));
    assert_eq!(first_browsable_object(&state.objects), None);
    let (mut state, _) = ViewerState::new();
    state.objects_loaded(Err("boom".into()));
    assert!(matches!(&state.table, TableState::Error(m) if m == "boom"));
}

#[test]
fn paging_moves_and_never_goes_below_first() {
    let mut state = ready_viewer();
    let r = load_request(state.go_to_page(1));
    assert_eq!((r.page, r.offset), (1, PAGE_SIZE));
    assert!(matches!(state.go_to_page(1), ViewerAction::Nothing));
    state.page_loaded(Ok(payload(1, vec![])));
    assert!(matches!(state.table, TableState::Ready { has_prev: true, .. }));
    let r = load_request(state.go_to_page(-1));
    assert_eq!((r.page, r.offset), (0, 0));
    state.page_loaded(Ok(payload(0, vec![])));
    let r = load_request(state.go_to_page(-5));
    assert_eq!(r.page, 0);
}

#[test]
fn loads_wait_for_running_load() {
    let (mut state, _) = ViewerState::new();
    assert!(matches!(state.load_page_data(i64::MAX), ViewerAction::Nothing));
    let mut state = ready_viewer();
    let r = load_request(state.load_page_data(3));
    assert_eq!((r.page, r.offset), (3, 300));
    assert!(matches!(state.load_page_data(i64::MAX), ViewerAction::Nothing));
    assert!(state.loading);
}

#[test]
fn switching_objects() {
    let mut state = ready_viewer();
    assert!(matches!(state.switch_object("users".into()), ViewerAction::Nothing));
    state.cell_clicked(0, 1);
    let r = load_request(state.switch_object("v_users".into()));
    assert_eq!((r.name.as_str(), r.page), ("v_users", 0));
    assert_eq!(state.editing_cell, None);
    assert_eq!(state.active_object.as_deref(), Some("v_users"));
}

#[test]
fn editing_a_cell_commits_changed_text() {
    let mut state = ready_viewer();
    state.cell_clicked(0, 1);
    assert_eq!(state.cell_display_text().as_deref(), Some("Alice"));
    let text = state.editor_to_spawn().unwrap();
    assert_eq!(text, "Alice");
    state.spawn_cell_editor(text);
    assert_eq!(state.editor_to_spawn(), None);
    state.editor_edited("Alicia".into());
    match state.editor_blurred() {
        ViewerAction::UpdateCell(edit) => {
            assert_eq!(edit.page, 0);
            assert_eq!(edit.update.table, "users");
            assert_eq!(edit.update.column_idx, 1);
            assert_eq!(edit.update.new_value, "Alicia");
            assert_eq!(edit.update.row[1], CellValue::Text("Alice".into()));
            assert_eq!(edit.update.columns.len(), 2);
        }
        _ => panic!("expected an update"),
    }
    assert_eq!(state.editing_cell, None);
    assert!(!state.has_cell_editor);
    let r = load_request(state.update_finished(Ok(()), 0));
    assert_eq!((r.name.as_str(), r.page), ("users", 0));
}

#[test]
fn confirming_commits_like_blur() {
    let mut state = ready_viewer();
    state.cell_clicked(0, 1);
    let text = state.editor_to_spawn().unwrap();
    state.spawn_cell_editor(text);
    state.editor_edited("Bea".into());
    match state.editor_confirmed() {
        ViewerAction::UpdateCell(edit) => {
            assert_eq!((edit.update.column_idx, edit.update.new_value.as_str(), edit.page), (1, "Bea", 0));
            assert_eq!(edit.update.row[0], CellValue::Integer(1));
        }
        _ => panic!("expected an update"),
    }
    assert_eq!(state.editing_cell, None);
    state.cell_clicked(1, 1);
    let text = state.editor_to_spawn().unwrap();
    state.spawn_cell_editor(text);
    assert!(matches!(state.editor_confirmed(), ViewerAction::Nothing));
    assert_eq!(state.editing_cell, None);
}

#[test]
fn unchanged_text_cancels_edit() {
    let mut state = ready_viewer();
    state.cell_clicked(1, 0);
    let text = state.editor_to_spawn().unwrap();
    assert_eq!(text, "2");
    state.spawn_cell_editor(text);
    assert!(matches!(state.editor_blurred(), ViewerAction::Nothing));
    assert_eq!(state.editing_cell, None);
    assert!(!state.has_cell_editor);
}

#[test]
fn edit_of_missing_row_does_nothing() {
    let mut state = ready_viewer();
    state.cell_clicked(7, 0);
    assert_eq!(state.editor_to_spawn().as_deref(), Some(""));
    assert!(matches!(state.commit_cell_edit(), ViewerAction::Nothing));
    assert_eq!(state.editing_cell, Some((7, 0)));
    state.cancel_cell_edit();
    assert!(matches!(state.commit_cell_edit(), ViewerAction::Nothing));
}

#[test]
fn failed_update_shows_error() {
    let mut state = ready_viewer();
    assert!(matches!(state.update_finished(Err("locked".into()), 0), ViewerAction::Nothing));
    assert!(matches!(&state.table, TableState::Error(m) if m == "locked"));
}

#[test]
fn labels_and_ranges() {
    let mut state = ready_viewer();
    let chips = state.object_chips();
    assert_eq!(chips.len(), 2);
    assert_eq!((chips[0].index, chips[0].label.as_str(), chips[0].selected), (1, "users", true));
    assert_eq!((chips[1].index, chips[1].label.as_str(), chips[1].selected), (2, "v_users (视图)", false));
    assert_eq!(ViewerState::column_header(&column("id", 1)), "id 🔑");
    assert_eq!(ViewerState::column_header(&column("n", 0)), "n");
    assert!(matches!(ViewerState::row_range(0, 0), RowRange::NoRows));
    assert!(matches!(ViewerState::row_range(0, 250), RowRange::Rows { start: 1, end: 100, total: 250 }));
    assert!(matches!(ViewerState::row_range(2, 250), RowRange::Rows { start: 201, end: 250, total: 250 }));
    assert_eq!(state.pagination_page(), 0);
    assert!(matches!(state.editor_bar_label(), EditorBarLabel::ClickToEdit));
    state.cell_clicked(1, 1);
    match state.editor_bar_label() {
        EditorBarLabel::Editing { row, column } => assert_eq!((row, column.as_str()), (2, "name")),
        _ => panic!("expected an edited cell"),
    }
    if let TableState::Ready { rows, .. } = &state.table {
        assert_eq!(ViewerState::cell_at(rows, 0, 1), CellValue::Text("Alice".into()));
        assert_eq!(ViewerState::cell_at(rows, 0, 5), CellValue::Null);
        assert_eq!(ViewerState::cell_at(rows, 9, 0), CellValue::Null);
    }
}

#[test]
fn page_job_counts_only_with_columns() {
    let mut job = PageJob::new(PageRequest { name: "users".into(), page: 2, offset: 200 });
    assert!(matches!(job.columns_read(vec![]), JobStep::LoadRows));
    assert_eq!(job.total, 0);
    let cols = vec![column("id", 1)];
    assert!(matches!(job.columns_read(cols.clone()), JobStep::CountRows));
    job.rows_counted(321);
    let page = page_from_rows(&cols, vec![vec![SqlValue::Integer(5)]], 100);
    let payload = job.finish(page);
    assert_eq!((payload.total, payload.page, payload.has_more), (321, 2, false));
    assert_eq!(payload.rows, vec![vec![CellValue::Integer(5)]]);
    let mut state = ready_viewer();
    state.page_loaded(Ok(payload));
    assert!(matches!(state.table, TableState::Ready { page: 2, has_prev: true, total: 321, .. }));
}

#[test]
fn object_labels() {
    assert_eq!(ViewerState::object_label(&object("v", DbObjectKind::View)), "v (视图)");
    assert_eq!(ViewerState::object_label(&object("t", DbObjectKind::Table)), "t");
}
