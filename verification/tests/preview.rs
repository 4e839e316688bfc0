use sqlite_viewer::office::{
    active_sheet_index, body_row, column_count, padding_cells, sheet_layout, Sheet, SheetLayout,
    SpreadsheetData,
};
use sqlite_viewer::tabular::{
    FilterSortOrder, PreviewSettings, RowRenderMechanism, VerticalAlignment,
};

fn rows(lens: &[usize]) -> Vec<Vec<String>> {
    lens.iter().map(|n| (0..*n).map(|i| i.to_string()).collect()).collect()
}

#[test]
fn spreadsheet_layout() {
    assert_eq!(active_sheet_index(5, 3), 2);
    assert_eq!(active_sheet_index(1, 3), 1);
    assert_eq!(active_sheet_index(0, 0), 0);
    assert_eq!(column_count(&rows(&[2, 5, 3])), 5);
    assert_eq!(column_count(&rows(&[])), 0);
    assert_eq!(padding_cells(2, 5), 3);
    assert_eq!(padding_cells(6, 5), 0);
    assert_eq!(body_row(0), (1, 2));
    let data = SpreadsheetData {
        sheets: vec![
            Sheet { name: "a".into(), rows: rows(&[1, 4]) },
            Sheet { name: "b".into(), rows: vec![] },
        ],
    };
    assert!(matches!(sheet_layout(&data, 0), SheetLayout::Grid { sheet: 0, columns: 4, data_rows: 1 }));
    assert!(matches!(sheet_layout(&data, 9), SheetLayout::Empty { sheet: 1 }));
    assert!(matches!(sheet_layout(&SpreadsheetData { sheets: vec![] }, 0), SheetLayout::Empty { sheet: 0 }));
}

#[test]
fn settings_panel() {
    let mut s = PreviewSettings {
        vertical_alignment: VerticalAlignment::Top,
        filter_sort_order: FilterSortOrder::AlphaThenCount,
        multiline_cells_enabled: false,
        rendering_with: RowRenderMechanism::UniformList,
        show_perf_metrics_overlay: false,
        show_debug_info: false,
    };
    assert_eq!(s.vertical_alignment.label_key(), "csv_preview.settings.alignment_top");
    s.choose_alignment(VerticalAlignment::Center);
    assert_eq!(s.vertical_alignment.label_key(), "csv_preview.settings.alignment_center");
    s.choose_filter_sort_order(FilterSortOrder::CountThenAlpha);
    assert_eq!(s.filter_sort_order.label_key(), "csv_preview.settings.filter_sort_count_then_alpha");
    s.toggle_multiline_cells();
    assert!(s.multiline_cells_enabled);
    s.toggle_multiline_cells();
    assert!(!s.multiline_cells_enabled);
    s.choose_rendering(RowRenderMechanism::VariableList);
    s.toggle_perf_metrics_overlay();
    s.toggle_debug_info();
    assert_eq!(s.rendering_with, RowRenderMechanism::VariableList);
    assert!(s.show_perf_metrics_overlay && s.show_debug_info);
}
