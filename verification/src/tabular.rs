//! The settings panel of the tabular data preview: its choices, the labels
//! that show them, and the changes its controls make.

use vstd::prelude::*;

verus! {

/// How the text of a cell is aligned vertically.
#[derive(Debug, Clone, Copy, PartialEq, Eq, Structural)]
pub enum VerticalAlignment {
    Top,
    Center,
}

/// How the values of a column filter are ordered.
#[derive(Debug, Clone, Copy, PartialEq, Eq, Structural)]
pub enum FilterSortOrder {
    AlphaThenCount,
    CountThenAlpha,
}

/// How the rows of the table are laid out.
#[derive(Debug, Clone, Copy, PartialEq, Eq, Structural)]
pub enum RowRenderMechanism {
    VariableList,
    UniformList,
}

/// The settings of the preview that the panel changes.
#[derive(Debug, Clone, Copy, PartialEq, Eq, Structural)]
pub struct PreviewSettings {
    pub vertical_alignment: VerticalAlignment,
    pub filter_sort_order: FilterSortOrder,
    pub multiline_cells_enabled: bool,
    pub rendering_with: RowRenderMechanism,
    pub show_perf_metrics_overlay: bool,
    pub show_debug_info: bool,
}

impl VerticalAlignment {
    /// The key of the label that names the alignment.
    pub fn label_key(&self) -> (key: &'static str)
        ensures
            key@ == match *self {
                VerticalAlignment::Top => "csv_preview.settings.alignment_top"@,
                VerticalAlignment::Center => "csv_preview.settings.alignment_center"@,
            },
    {
        match self {
            VerticalAlignment::Top => "csv_preview.settings.alignment_top",
            VerticalAlignment::Center => "csv_preview.settings.alignment_center",
        }
    }
}

impl FilterSortOrder {
    /// The key of the label that names the order.
    pub fn label_key(&self) -> (key: &'static str)
        ensures
            key@ == match *self {
                FilterSortOrder::AlphaThenCount => "csv_preview.settings.filter_sort_alpha_then_count"@,
                FilterSortOrder::CountThenAlpha => "csv_preview.settings.filter_sort_count_then_alpha"@,
            },
    {
        match self {
            FilterSortOrder::AlphaThenCount => "csv_preview.settings.filter_sort_alpha_then_count",
            FilterSortOrder::CountThenAlpha => "csv_preview.settings.filter_sort_count_then_alpha",
        }
    }
}

impl PreviewSettings {
    /// Picks a vertical alignment from the alignment menu.
    pub fn choose_alignment(&mut self, alignment: VerticalAlignment)
        ensures
            *final(self) == (PreviewSettings { vertical_alignment: alignment, ..*old(self) }),
    {
        self.vertical_alignment = alignment;
    }

    /// Picks an order from the filter order menu.
    pub fn choose_filter_sort_order(&mut self, order: FilterSortOrder)
        ensures
            *final(self) == (PreviewSettings { filter_sort_order: order, ..*old(self) }),
    {
        self.filter_sort_order = order;
    }

    /// The multi-line cells checkbox was clicked.
    pub fn toggle_multiline_cells(&mut self)
        ensures
            *final(self) == (PreviewSettings {
                multiline_cells_enabled: !old(self).multiline_cells_enabled,
                ..*old(self)
            }),
    {
        self.multiline_cells_enabled = !self.multiline_cells_enabled;
    }

    /// Picks how rows are laid out (a development option).
    pub fn choose_rendering(&mut self, mechanism: RowRenderMechanism)
        ensures
            *final(self) == (PreviewSettings { rendering_with: mechanism, ..*old(self) }),
    {
        self.rendering_with = mechanism;
    }

    /// Shows or hides the performance overlay (a development option).
    pub fn toggle_perf_metrics_overlay(&mut self)
        ensures
            *final(self) == (PreviewSettings {
                show_perf_metrics_overlay: !old(self).show_perf_metrics_overlay,
                ..*old(self)
            }),
    {
        self.show_perf_metrics_overlay = !self.show_perf_metrics_overlay;
    }

    /// Shows or hides the cell positions (a development option).
    pub fn toggle_debug_info(&mut self)
        ensures
            *final(self) == (PreviewSettings {
                show_debug_info: !old(self).show_debug_info,
                ..*old(self)
            }),
    {
        self.show_debug_info = !self.show_debug_info;
    }
}

} // verus!
