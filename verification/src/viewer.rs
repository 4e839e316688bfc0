//! The state of the SQLite viewer and its transitions.
//!
//! The viewer lists a database's objects, shows one table or view a page at a
//! time and lets the user edit a cell. The work that touches the database runs
//! elsewhere: each transition returns a [`ViewerAction`] that says what to run,
//! and the result comes back through another transition.

use vstd::prelude::*;
use crate::db::{
    cell_text, cell_views, column_views, copy_columns, opt_text, CellUpdate, CellValue, ColumnInfo,
    ColumnView, DbObject, DbObjectKind, ObjectView, TablePage,
};

verus! {

/// Rows per page.
pub const PAGE_SIZE: i64 = 100;

/// The last page the viewer can ask for (`i64::MAX / PAGE_SIZE - 1`): the
/// offset of the row after it still fits in an `i64`.
pub const MAX_PAGE: i64 = 92233720368547757;

/// What the table area shows.
pub enum TableState {
    Loading,
    Ready {
        columns: Vec<ColumnInfo>,
        rows: Vec<Vec<CellValue>>,
        /// The number of rows of the table.
        total: i64,
        page: i64,
        has_more: bool,
        has_prev: bool,
    },
    Error(String),
    Empty,
}

/// The rows of a page as the background job hands them to the viewer.
pub struct PagePayload {
    pub columns: Vec<ColumnInfo>,
    pub rows: Vec<Vec<CellValue>>,
    pub total: i64,
    pub page: i64,
    pub has_more: bool,
}

/// A request to read one page of an object.
pub struct PageRequest {
    pub name: String,
    pub page: i64,
    pub offset: i64,
}

/// A request to write an edited cell; after it, the page `page` is read again.
pub struct CellEdit {
    pub update: CellUpdate,
    pub page: i64,
}

/// What the caller runs after a transition.
pub enum ViewerAction {
    Nothing,
    /// List the database's objects, then call `objects_loaded`.
    ListObjects,
    /// Read a page (see [`PageJob`]), then call `page_loaded`.
    LoadPage(PageRequest),
    /// Run the cell update, then call `update_finished` with its page.
    UpdateCell(CellEdit),
}

/// The state of the viewer.
pub struct ViewerState {
    pub objects: Vec<DbObject>,
    pub active_object: Option<String>,
    pub table: TableState,
    /// The cell being edited: (row in the page, column).
    pub editing_cell: Option<(usize, usize)>,
    /// Whether an editor for the cell exists.
    pub has_cell_editor: bool,
    /// The text in the cell editor.
    pub cell_editor_value: String,
    /// Whether a load is running; no other load starts meanwhile.
    pub loading: bool,
}

/// `i` is the first object that is a table or a view.
pub open spec fn is_first_browsable(objects: Seq<ObjectView>, i: int) -> bool {
    &&& 0 <= i < objects.len()
    &&& (objects[i].kind == DbObjectKind::Table || objects[i].kind == DbObjectKind::View)
    &&& forall|j: int|
        0 <= j < i ==> (#[trigger] objects[j]).kind != DbObjectKind::Table && objects[j].kind
            != DbObjectKind::View
}

/// The first object that is a table or a view, if any.
pub open spec fn first_browsable(objects: Seq<ObjectView>) -> Option<int> {
    if exists|i: int| is_first_browsable(objects, i) {
        Some(choose|i: int| is_first_browsable(objects, i))
    } else {
        None
    }
}

/// The objects, as views.
pub open spec fn object_views(objects: Seq<DbObject>) -> Seq<ObjectView> {
    objects.map_values(|o: DbObject| o@)
}

/// The page that a request for `page` reads: pages before the first are read
/// as the first.
pub open spec fn clamped_page(page: i64) -> i64 {
    if page < 0 {
        0
    } else {
        page
    }
}

/// The text of the cell at (`row`, `col`) of the page, if it exists.
pub open spec fn page_cell_text(rows: Seq<Vec<CellValue>>, row: int, col: int) -> Option<
    Seq<char>,
> {
    if 0 <= row < rows.len() && 0 <= col < rows[row]@.len() {
        Some(cell_text(rows[row]@[col]@))
    } else {
        None
    }
}

/// Copies a cell.
pub fn copy_cell(c: &CellValue) -> (d: CellValue)
    ensures
        d@ == c@,
{
    match c {
        CellValue::Null => CellValue::Null,
        CellValue::Integer(i) => CellValue::Integer(*i),
        CellValue::Real(t) => CellValue::Real(t.clone()),
        CellValue::Text(t) => CellValue::Text(t.clone()),
        CellValue::Blob(b) => {
            let mut copy: Vec<u8> = Vec::new();
            let n = b.len();
            let mut i: usize = 0;
            while i < n
                invariant
                    n == b@.len(),
                    0 <= i <= n,
                    copy@ == b@.subrange(0, i as int),
                decreases n - i,
            {
                copy.push(b[i]);
                proof {
                    assert(copy@ =~= b@.subrange(0, i + 1));
                }
                i = i + 1;
            }
            proof {
                assert(copy@ =~= b@);
            }
            CellValue::Blob(copy)
        },
    }
}

/// Copies a row of cells.
pub fn copy_row(row: &Vec<CellValue>) -> (copy: Vec<CellValue>)
    ensures
        cell_views(copy@) == cell_views(row@),
{
    let mut copy: Vec<CellValue> = Vec::new();
    let n = row.len();
    let mut i: usize = 0;
    while i < n
        invariant
            n == row@.len(),
            0 <= i <= n,
            copy@.len() == i,
            forall|j: int| 0 <= j < i ==> #[trigger] copy@[j]@ == row@[j]@,
        decreases n - i,
    {
        copy.push(copy_cell(&row[i]));
        i = i + 1;
    }
    proof {
        assert(cell_views(copy@) =~= cell_views(row@));
    }
    copy
}

impl ViewerState {
    /// The state is consistent: a shown page is one the viewer can ask for,
    /// and it has a previous page exactly when it is not the first.
    pub open spec fn wf(&self) -> bool {
        match self.table {
            TableState::Ready { page, has_prev, .. } => 0 <= page <= MAX_PAGE && has_prev == (page
                > 0),
            _ => true,
        }
    }

    /// The viewer when it opens: loading the list of objects.
    pub fn new() -> (res: (ViewerState, ViewerAction))
        ensures
            res.0.wf(),
            res.0.objects@.len() == 0,
            res.0.active_object is None,
            res.0.table is Loading,
            res.0.editing_cell is None,
            !res.0.has_cell_editor,
            res.0.cell_editor_value@.len() == 0,
            res.0.loading,
            res.1 is ListObjects,
    {
        let mut state = ViewerState {
            objects: Vec::new(),
            active_object: None,
            table: TableState::Loading,
            editing_cell: None,
            has_cell_editor: false,
            cell_editor_value: String::new(),
            loading: false,
        };
        let action = state.reload_objects();
        (state, action)
    }

    /// Starts listing the objects, unless a load is running.
    pub fn reload_objects(&mut self) -> (action: ViewerAction)
        requires
            old(self).wf(),
        ensures
            final(self).wf(),
            old(self).loading ==> *final(self) == *old(self) && action is Nothing,
            !old(self).loading ==> *final(self) == (ViewerState { loading: true, ..*old(self) })
                && action is ListObjects,
    {
        if self.loading {
            return ViewerAction::Nothing;
        }
        self.loading = true;
        ViewerAction::ListObjects
    }

    /// Starts reading page `page` (a page before the first reads the first)
    /// of the active object, unless there is none or a load is running.
    pub fn load_page_data(&mut self, page: i64) -> (action: ViewerAction)
        requires
            old(self).wf(),
            old(self).active_object is Some && !old(self).loading ==> page <= MAX_PAGE,
        ensures
            final(self).wf(),
            old(self).active_object is None || old(self).loading ==> *final(self) == *old(self)
                && action is Nothing,
            old(self).active_object is Some && !old(self).loading ==> {
                &&& *final(self) == (ViewerState {
                    loading: true,
                    table: TableState::Loading,
                    ..*old(self)
                })
                &&& action matches ViewerAction::LoadPage(r) && Some(r.name@) == opt_text(
                    old(self).active_object,
                ) && r.page == clamped_page(page) && r.offset == clamped_page(page) * PAGE_SIZE
            },
    {
        let name = match &self.active_object {
            Some(name) => name.clone(),
            None => return ViewerAction::Nothing,
        };
        if self.loading {
            return ViewerAction::Nothing;
        }
        let page_no = if page < 0 {
            0
        } else {
            page
        };
        let offset = page_no * PAGE_SIZE;
        self.loading = true;
        self.table = TableState::Loading;
        ViewerAction::LoadPage(PageRequest { name, page: page_no, offset })
    }
}


/// The position of the first object that is a table or a view, if any.
pub fn first_browsable_object(objects: &Vec<DbObject>) -> (pos: Option<usize>)
    ensures
        match pos {
            Some(i) => first_browsable(object_views(objects@)) == Some(i as int),
            None => first_browsable(object_views(objects@)) is None,
        },
{
    let ghost objs = object_views(objects@);
    let n = objects.len();
    let mut i: usize = 0;
    while i < n
        invariant
            n == objects@.len(),
            objs == object_views(objects@),
            0 <= i <= n,
            forall|j: int|
                0 <= j < i ==> (#[trigger] objs[j]).kind != DbObjectKind::Table && objs[j].kind
                    != DbObjectKind::View,
        decreases n - i,
    {
        if objects[i].kind == DbObjectKind::Table || objects[i].kind == DbObjectKind::View {
            proof {
                assert(is_first_browsable(objs, i as int));
                let k = choose|k: int| is_first_browsable(objs, k);
                assert(k == i) by {
                    if k < i {
                        assert(objs[k].kind != DbObjectKind::Table);
                    } else if k > i {
                        assert(objs[i as int].kind != DbObjectKind::Table);
                    }
                }
            }
            return Some(i);
        }
        i = i + 1;
    }
    proof {
        assert(!exists|k: int| is_first_browsable(objs, k));
    }
    None
}

impl ViewerState {
    /// Takes the listed objects (or the error that listing gave) and starts
    /// reading the first page of the first table or view.
    pub fn objects_loaded(&mut self, result: Result<Vec<DbObject>, String>) -> (action:
        ViewerAction)
        requires
            old(self).wf(),
        ensures
            final(self).wf(),
            final(self).editing_cell == old(self).editing_cell,
            final(self).has_cell_editor == old(self).has_cell_editor,
            final(self).cell_editor_value == old(self).cell_editor_value,
            match result {
                Err(e) => {
                    &&& final(self).objects == old(self).objects
                    &&& final(self).active_object == old(self).active_object
                    &&& !final(self).loading
                    &&& final(self).table matches TableState::Error(m) && m@ == e@
                    &&& action is Nothing
                },
                Ok(objects) => {
                    &&& final(self).objects == objects
                    &&& match first_browsable(object_views(objects@)) {
                        Some(i) => {
                            &&& opt_text(final(self).active_object) == Some(objects@[i].name@)
                            &&& final(self).loading
                            &&& final(self).table is Loading
                            &&& action matches ViewerAction::LoadPage(r) && r.name@
                                == objects@[i].name@ && r.page == 0 && r.offset == 0
                        },
                        None => {
                            &&& final(self).active_object == old(self).active_object
                            &&& !final(self).loading
                            &&& final(self).table is Empty
                            &&& action is Nothing
                        },
                    }
                },
            },
    {
        self.loading = false;
        match result {
            Ok(objects) => {
                self.objects = objects;
                match first_browsable_object(&self.objects) {
                    Some(i) => {
                        let name = self.objects[i].name.clone();
                        self.active_object = Some(name);
                        self.table = TableState::Loading;
                        self.load_page_data(0)
                    },
                    None => {
                        self.table = TableState::Empty;
                        ViewerAction::Nothing
                    },
                }
            },
            Err(e) => {
                self.table = TableState::Error(e);
                ViewerAction::Nothing
            },
        }
    }

    /// Takes a page that was read (or the error that reading gave) and shows it.
    pub fn page_loaded(&mut self, result: Result<PagePayload, String>)
        requires
            old(self).wf(),
            result matches Ok(p) ==> 0 <= p.page <= MAX_PAGE,
        ensures
            final(self).wf(),
            !final(self).loading,
            final(self).objects == old(self).objects,
            final(self).active_object == old(self).active_object,
            final(self).editing_cell == old(self).editing_cell,
            final(self).has_cell_editor == old(self).has_cell_editor,
            final(self).cell_editor_value == old(self).cell_editor_value,
            match result {
                Err(e) => final(self).table matches TableState::Error(m) && m@ == e@,
                Ok(p) => final(self).table == (TableState::Ready {
                    columns: p.columns,
                    rows: p.rows,
                    total: p.total,
                    page: p.page,
                    has_more: p.has_more,
                    has_prev: p.page > 0,
                }),
            },
    {
        self.loading = false;
        match result {
            Ok(p) => {
                let has_prev = p.page > 0;
                self.table = TableState::Ready {
                    columns: p.columns,
                    rows: p.rows,
                    total: p.total,
                    page: p.page,
                    has_more: p.has_more,
                    has_prev,
                };
            },
            Err(e) => {
                self.table = TableState::Error(e);
            },
        }
    }

    /// Shows the object `name` from its first page on; nothing happens when it
    /// is shown already.
    pub fn switch_object(&mut self, name: String) -> (action: ViewerAction)
        requires
            old(self).wf(),
        ensures
            final(self).wf(),
            opt_text(old(self).active_object) == Some(name@) ==> *final(self) == *old(self)
                && action is Nothing,
            opt_text(old(self).active_object) != Some(name@) ==> {
                &&& final(self).active_object == Some(name)
                &&& final(self).editing_cell is None
                &&& !final(self).has_cell_editor
                &&& final(self).objects == old(self).objects
                &&& final(self).cell_editor_value == old(self).cell_editor_value
                &&& old(self).loading ==> final(self).loading && final(self).table == old(
                    self,
                ).table && action is Nothing
                &&& !old(self).loading ==> {
                    &&& final(self).loading
                    &&& final(self).table is Loading
                    &&& action matches ViewerAction::LoadPage(r) && r.name@ == name@ && r.page == 0
                        && r.offset == 0
                }
            },
    {
        let same = match &self.active_object {
            Some(active) => crate::text::str_eq(active.as_str(), name.as_str()),
            None => false,
        };
        if same {
            return ViewerAction::Nothing;
        }
        self.active_object = Some(name);
        self.editing_cell = None;
        self.has_cell_editor = false;
        self.load_page_data(0)
    }

    /// The page shown, if a page is shown.
    pub open spec fn shown_page(&self) -> Option<i64> {
        match self.table {
            TableState::Ready { page, .. } => Some(page),
            _ => None,
        }
    }

    /// Moves `delta` pages from the page shown (not before the first page).
    pub fn go_to_page(&mut self, delta: i64) -> (action: ViewerAction)
        requires
            old(self).wf(),
            old(self).shown_page() matches Some(p) ==> p + delta <= MAX_PAGE,
        ensures
            final(self).wf(),
            old(self).shown_page() is None ==> *final(self) == *old(self) && action is Nothing,
            old(self).shown_page() matches Some(p) ==> {
                &&& old(self).active_object is None || old(self).loading ==> *final(self) == *old(
                    self,
                ) && action is Nothing
                &&& old(self).active_object is Some && !old(self).loading ==> {
                    &&& *final(self) == (ViewerState {
                        loading: true,
                        table: TableState::Loading,
                        ..*old(self)
                    })
                    &&& action matches ViewerAction::LoadPage(r) && Some(r.name@) == opt_text(
                        old(self).active_object,
                    ) && r.page == clamped_page((p + delta) as i64) && r.offset == r.page
                        * PAGE_SIZE
                }
            },
    {
        let current = match &self.table {
            TableState::Ready { page, .. } => *page,
            _ => return ViewerAction::Nothing,
        };
        let target = if current + delta < 0 {
            0
        } else {
            current + delta
        };
        self.load_page_data(target)
    }

    /// A click on the cell (`row`, `col`) of the page starts editing it.
    pub fn cell_clicked(&mut self, row: usize, col: usize)
        requires
            old(self).wf(),
        ensures
            final(self).wf(),
            *final(self) == (ViewerState { editing_cell: Some((row, col)), ..*old(self) }),
    {
        self.editing_cell = Some((row, col));
    }

    /// The text of the cell being edited, as it shows on the page.
    pub open spec fn edited_cell_text(&self) -> Option<Seq<char>> {
        match (self.editing_cell, self.table) {
            (Some((row, col)), TableState::Ready { rows, .. }) => page_cell_text(
                rows@,
                row as int,
                col as int,
            ),
            _ => None,
        }
    }

    /// The text of the cell being edited, if it is on the page shown.
    pub fn cell_display_text(&self) -> (text: Option<String>)
        ensures
            opt_text(text) == self.edited_cell_text(),
    {
        let (row, col) = match self.editing_cell {
            Some(cell) => cell,
            None => return None,
        };
        match &self.table {
            TableState::Ready { rows, .. } => {
                if row < rows.len() && col < rows[row].len() {
                    Some(rows[row][col].display())
                } else {
                    None
                }
            },
            _ => None,
        }
    }

    /// The text that a new cell editor starts with, when a cell is being
    /// edited and has no editor yet: the cell's text, or nothing when the
    /// cell is not on the page.
    pub fn editor_to_spawn(&self) -> (text: Option<String>)
        ensures
            text is Some <==> self.editing_cell is Some && !self.has_cell_editor,
            text matches Some(t) ==> t@ == match self.edited_cell_text() {
                Some(c) => c,
                None => Seq::empty(),
            },
    {
        if self.editing_cell.is_some() && !self.has_cell_editor {
            match self.cell_display_text() {
                Some(t) => Some(t),
                None => Some(String::new()),
            }
        } else {
            None
        }
    }

    /// An editor was made for the cell being edited, holding `text`.
    pub fn spawn_cell_editor(&mut self, text: String)
        requires
            old(self).wf(),
        ensures
            final(self).wf(),
            *final(self) == (ViewerState {
                cell_editor_value: text,
                has_cell_editor: true,
                ..*old(self)
            }),
    {
        self.cell_editor_value = text;
        self.has_cell_editor = true;
    }

    /// The text in the cell editor changed.
    pub fn editor_edited(&mut self, text: String)
        requires
            old(self).wf(),
        ensures
            final(self).wf(),
            *final(self) == (ViewerState { cell_editor_value: text, ..*old(self) }),
    {
        self.cell_editor_value = text;
    }

    /// Ends editing without writing anything.
    pub fn cancel_cell_edit(&mut self)
        requires
            old(self).wf(),
        ensures
            final(self).wf(),
            *final(self) == (ViewerState {
                editing_cell: None,
                has_cell_editor: false,
                ..*old(self)
            }),
    {
        self.editing_cell = None;
        self.has_cell_editor = false;
    }

    /// The row of the cell being edited (0 when none is).
    pub open spec fn edit_row(&self) -> usize {
        match self.editing_cell {
            Some((row, _)) => row,
            None => 0,
        }
    }

    /// The column of the cell being edited (0 when none is).
    pub open spec fn edit_col(&self) -> usize {
        match self.editing_cell {
            Some((_, col)) => col,
            None => 0,
        }
    }

    /// What committing the edit does (see `commit_cell_edit`): without an
    /// edited cell the edit is cancelled; without an object, a page or the
    /// edited row on it nothing happens; else the editor closes and the
    /// update of the edited cell of the shown object is asked for, with the
    /// editor's text, the page's columns and row, and the page to read again.
    pub open spec fn committed(old: ViewerState, new: ViewerState, action: ViewerAction) -> bool {
        &&& old.editing_cell is None ==> new == (ViewerState {
            editing_cell: None,
            has_cell_editor: false,
            ..old
        }) && action is Nothing
        &&& old.editing_cell is Some && !old.can_commit() ==> new == old && action is Nothing
        &&& old.can_commit() ==> {
            &&& new == (ViewerState { editing_cell: None, has_cell_editor: false, ..old })
            &&& old.table matches TableState::Ready { columns, rows, page, .. }
                && action matches ViewerAction::UpdateCell(edit)
                && edit.page == page
                && Some(edit.update.table@) == opt_text(old.active_object)
                && column_views(edit.update.columns@) == column_views(columns@)
                && edit.update.column_idx == old.edit_col()
                && cell_views(edit.update.row@) == cell_views(rows@[old.edit_row() as int]@)
                && edit.update.new_value@ == old.cell_editor_value@
        }
    }

    /// What finishing the edit does (on losing focus or on confirming): when
    /// the editor's text is the cell's text the edit is cancelled, else it is
    /// committed.
    pub open spec fn finished_edit(old: ViewerState, new: ViewerState, action: ViewerAction) -> bool {
        &&& old.edited_cell_text() == Some(old.cell_editor_value@) ==> new == (ViewerState {
            editing_cell: None,
            has_cell_editor: false,
            ..old
        }) && action is Nothing
        &&& old.edited_cell_text() != Some(old.cell_editor_value@) ==> ViewerState::committed(old, new, action)
    }

    /// Whether a commit of the edit would write: a cell is edited, an object
    /// is shown with its page, and the edited row is on the page.
    pub open spec fn can_commit(&self) -> bool {
        &&& self.editing_cell is Some
        &&& self.active_object is Some
        &&& self.table matches TableState::Ready { rows, .. } && self.edit_row() < rows@.len()
    }

    /// Writes the editor's text into the edited cell: closes the editor and
    /// asks for the update of the shown object, which the page shown is read
    /// again after. Without an edited cell the edit is cancelled; without an
    /// object, a page or the edited row on it, nothing happens.
    pub fn commit_cell_edit(&mut self) -> (action: ViewerAction)
        requires
            old(self).wf(),
        ensures
            final(self).wf(),
            ViewerState::committed(*old(self), *final(self), action),
    {
        let (row, col) = match self.editing_cell {
            Some(cell) => cell,
            None => {
                self.cancel_cell_edit();
                return ViewerAction::Nothing;
            },
        };
        let name = match &self.active_object {
            Some(name) => name.clone(),
            None => return ViewerAction::Nothing,
        };
        let (columns, orig_row, page) = match &self.table {
            TableState::Ready { columns, rows, page, .. } => {
                if row >= rows.len() {
                    return ViewerAction::Nothing;
                }
                (copy_columns(columns.as_slice()), copy_row(&rows[row]), *page)
            },
            _ => return ViewerAction::Nothing,
        };
        let new_value = self.cell_editor_value.clone();
        self.editing_cell = None;
        self.has_cell_editor = false;
        ViewerAction::UpdateCell(
            CellEdit {
                update: CellUpdate { table: name, columns, column_idx: col, row: orig_row, new_value },
                page,
            },
        )
    }

    /// The cell editor lost focus: the edit is written when the editor's text
    /// differs from the cell's (or the cell is not on the page), and
    /// cancelled otherwise.
    pub fn editor_blurred(&mut self) -> (action: ViewerAction)
        requires
            old(self).wf(),
        ensures
            final(self).wf(),
            ViewerState::finished_edit(*old(self), *final(self), action),
    {
        let changed = match self.cell_display_text() {
            Some(old_text) => !crate::text::str_eq(
                old_text.as_str(),
                self.cell_editor_value.as_str(),
            ),
            None => true,
        };
        if changed {
            self.commit_cell_edit()
        } else {
            self.cancel_cell_edit();
            ViewerAction::Nothing
        }
    }

    /// The cell editor was confirmed (Enter): the edit is finished as when
    /// the editor loses focus.
    pub fn editor_confirmed(&mut self) -> (action: ViewerAction)
        requires
            old(self).wf(),
        ensures
            final(self).wf(),
            ViewerState::finished_edit(*old(self), *final(self), action),
    {
        self.editor_blurred()
    }

    /// Takes the outcome of a cell update: on success the page `page` is read
    /// again; on failure the error is shown.
    pub fn update_finished(&mut self, result: Result<(), String>, page: i64) -> (action:
        ViewerAction)
        requires
            old(self).wf(),
            result is Ok && old(self).active_object is Some ==> page <= MAX_PAGE,
        ensures
            final(self).wf(),
            final(self).objects == old(self).objects,
            final(self).active_object == old(self).active_object,
            final(self).editing_cell == old(self).editing_cell,
            final(self).has_cell_editor == old(self).has_cell_editor,
            final(self).cell_editor_value == old(self).cell_editor_value,
            match result {
                Err(e) => {
                    &&& !final(self).loading
                    &&& final(self).table matches TableState::Error(m) && m@ == e@
                    &&& action is Nothing
                },
                Ok(_) => {
                    &&& final(self).table is Loading
                    &&& old(self).active_object is None ==> !final(self).loading && action is Nothing
                    &&& old(self).active_object is Some ==> {
                        &&& final(self).loading
                        &&& action matches ViewerAction::LoadPage(r) && Some(r.name@) == opt_text(
                            old(self).active_object,
                        ) && r.page == clamped_page(page) && r.offset == r.page * PAGE_SIZE
                    }
                },
            },
    {
        self.loading = false;
        match result {
            Ok(()) => {
                self.table = TableState::Loading;
                self.load_page_data(page)
            },
            Err(e) => {
                self.table = TableState::Error(e);
                ViewerAction::Nothing
            },
        }
    }
}


/// What a page job does after it has read the columns.
pub enum JobStep {
    /// Count the table's rows (`count_rows_sql`), then call `rows_counted`.
    CountRows,
    /// Read the page (`load_page_sql` with the job's columns, offset and
    /// [`PAGE_SIZE`]).
    LoadRows,
}

/// The background work of reading a page: the columns, the number of rows
/// (unless there are no columns) and the page's rows.
pub struct PageJob {
    pub name: String,
    pub page: i64,
    pub offset: i64,
    pub columns: Vec<ColumnInfo>,
    pub total: i64,
}

impl PageJob {
    /// A job for the page that a request asks for.
    pub fn new(request: PageRequest) -> (job: PageJob)
        ensures
            job.name == request.name,
            job.page == request.page,
            job.offset == request.offset,
            job.columns@.len() == 0,
            job.total == 0,
    {
        PageJob {
            name: request.name,
            page: request.page,
            offset: request.offset,
            columns: Vec::new(),
            total: 0,
        }
    }

    /// Takes the object's columns; the rows are counted only when there are
    /// columns (an object without columns has no rows to count).
    pub fn columns_read(&mut self, columns: Vec<ColumnInfo>) -> (step: JobStep)
        ensures
            *final(self) == (PageJob { columns, total: 0, ..*old(self) }),
            step is CountRows <==> columns@.len() > 0,
    {
        let count = columns.len() > 0;
        self.columns = columns;
        self.total = 0;
        if count {
            JobStep::CountRows
        } else {
            JobStep::LoadRows
        }
    }

    /// Takes the number of rows.
    pub fn rows_counted(&mut self, total: i64)
        ensures
            *final(self) == (PageJob { total, ..*old(self) }),
    {
        self.total = total;
    }

    /// The page for the viewer, from the page that was read.
    pub fn finish(self, page: TablePage) -> (payload: PagePayload)
        ensures
            payload.columns == self.columns,
            payload.total == self.total,
            payload.page == self.page,
            payload.has_more == page.has_more,
            payload.rows@.len() == page.rows@.len(),
            forall|i: int|
                0 <= i < page.rows@.len() ==> #[trigger] payload.rows@[i] == page.rows@[i].values,
    {
        let has_more = page.has_more;
        let mut rows: Vec<Vec<CellValue>> = Vec::new();
        for r in it: page.rows.into_iter()
            invariant
                it.seq() == page.rows@,
                rows@.len() == it.index(),
                forall|i: int| 0 <= i < it.index() ==> #[trigger] rows@[i] == page.rows@[i].values,
        {
            rows.push(r.values);
        }
        PagePayload { columns: self.columns, rows, total: self.total, page: self.page, has_more }
    }
}

/// The label of an object in the object bar: a view's name is followed by
/// ` (视图)`.
pub open spec fn object_label_text(obj: ObjectView) -> Seq<char> {
    if obj.kind == DbObjectKind::View {
        obj.name + " (视图)"@
    } else {
        obj.name
    }
}

/// A button of the object bar.
pub struct ObjectChip {
    /// The object's position in the list of objects.
    pub index: usize,
    pub label: String,
    pub kind: DbObjectKind,
    /// Whether the object is the one shown.
    pub selected: bool,
}

/// The objects of the object bar: the tables and views, in order.
pub open spec fn chip_positions(objects: Seq<ObjectView>, n: nat) -> Seq<int>
    decreases n,
{
    if n == 0 {
        Seq::empty()
    } else {
        let before = chip_positions(objects, (n - 1) as nat);
        let i = n - 1;
        if objects[i].kind == DbObjectKind::Table || objects[i].kind == DbObjectKind::View {
            before.push(i)
        } else {
            before
        }
    }
}

/// The header text of a column: a primary-key column's name is followed by
/// ` 🔑`.
pub open spec fn column_header_text(col: ColumnView) -> Seq<char> {
    if col.is_pk {
        col.name + " 🔑"@
    } else {
        col.name
    }
}

/// The rows that the pagination bar reports.
pub enum RowRange {
    /// The table has no rows.
    NoRows,
    /// Rows `start` to `end` (1-based, inclusive) of `total`.
    Rows { start: i64, end: i64, total: i64 },
}

/// What the editor bar says.
pub enum EditorBarLabel {
    /// No cell is edited: click a cell to edit it.
    ClickToEdit,
    /// The cell of row `row` (1-based) in column `column` is edited.
    Editing { row: usize, column: String },
}

impl ViewerState {
    /// The label of an object in the object bar.
    pub fn object_label(obj: &DbObject) -> (label: String)
        ensures
            label@ == object_label_text(obj@),
    {
        match obj.kind {
            DbObjectKind::View => {
                let mut label = obj.name.clone();
                label.append(" (视图)");
                label
            },
            _ => obj.name.clone(),
        }
    }

    /// The buttons of the object bar: one for each table and view, in order,
    /// the shown one selected.
    #[verifier::rlimit(40)]
    pub fn object_chips(&self) -> (chips: Vec<ObjectChip>)
        ensures
            chips@.len() == chip_positions(object_views(self.objects@), self.objects@.len()).len(),
            forall|k: int|
                0 <= k < chips@.len() ==> {
                    let i = chip_positions(object_views(self.objects@), self.objects@.len())[k];
                    &&& (#[trigger] chips@[k]).index == i
                    &&& chips@[k].label@ == object_label_text(self.objects@[i]@)
                    &&& chips@[k].kind == self.objects@[i].kind
                    &&& chips@[k].selected == (self.objects@[i].name@ == match self.active_object {
                        Some(a) => a@,
                        None => Seq::empty(),
                    })
                },
            forall|k: int|
                0 <= k < chips@.len() ==> (#[trigger] chips@[k]).index < self.objects@.len() && (
                chips@[k].kind == DbObjectKind::Table || chips@[k].kind == DbObjectKind::View),
            forall|k1: int, k2: int|
                0 <= k1 < k2 < chips@.len() ==> (#[trigger] chips@[k1]).index < (
                #[trigger] chips@[k2]).index,
            forall|i: int|
                0 <= i < self.objects@.len() && ((#[trigger] self.objects@[i]).kind
                    == DbObjectKind::Table || self.objects@[i].kind == DbObjectKind::View) ==> exists|
                    k: int,
                | 0 <= k < chips@.len() && chips@[k].index == i,
    {
        proof {
            lemma_chip_positions(object_views(self.objects@), self.objects@.len());
        }
        let ghost objs = object_views(self.objects@);
        let active = match &self.active_object {
            Some(a) => a.clone(),
            None => String::new(),
        };
        let mut chips: Vec<ObjectChip> = Vec::new();
        let n = self.objects.len();
        let mut i: usize = 0;
        while i < n
            invariant
                n == self.objects@.len(),
                objs == object_views(self.objects@),
                0 <= i <= n,
                active@ == match self.active_object {
                    Some(a) => a@,
                    None => Seq::<char>::empty(),
                },
                chips@.len() == chip_positions(objs, i as nat).len(),
                forall|k: int|
                    0 <= k < chips@.len() ==> {
                        let j = chip_positions(objs, i as nat)[k];
                        &&& (#[trigger] chips@[k]).index == j
                        &&& chips@[k].label@ == object_label_text(self.objects@[j]@)
                        &&& chips@[k].kind == self.objects@[j].kind
                        &&& chips@[k].selected == (self.objects@[j].name@ == active@)
                    },
            decreases n - i,
        {
            let obj = &self.objects[i];
            if obj.kind == DbObjectKind::Table || obj.kind == DbObjectKind::View {
                let selected = crate::text::str_eq(obj.name.as_str(), active.as_str());
                chips.push(
                    ObjectChip {
                        index: i,
                        label: ViewerState::object_label(obj),
                        kind: obj.kind,
                        selected,
                    },
                );
            }
            i = i + 1;
        }
        proof {
            let pos = chip_positions(objs, n as nat);
            assert forall|j: int|
                0 <= j < self.objects@.len() && ((#[trigger] self.objects@[j]).kind
                    == DbObjectKind::Table || self.objects@[j].kind
                    == DbObjectKind::View) implies exists|k: int|
                0 <= k < chips@.len() && chips@[k].index == j by {
                assert(objs[j].kind == self.objects@[j].kind);
                let k = choose|k: int| 0 <= k < pos.len() && pos[k] == j;
                assert(chips@[k].index == j);
            }
        }
        chips
    }

    /// The header text of a column.
    pub fn column_header(col: &ColumnInfo) -> (text: String)
        ensures
            text@ == column_header_text(col@),
    {
        if col.is_pk {
            let mut text = col.name.clone();
            text.append(" 🔑");
            text
        } else {
            col.name.clone()
        }
    }

    /// The rows that the pagination bar reports for page `page` of a table of
    /// `total` rows: none when there are none, else from the page's first row
    /// to its last one, or the table's last one when the page is not full.
    pub fn row_range(page: i64, total: i64) -> (range: RowRange)
        requires
            0 <= page <= MAX_PAGE,
        ensures
            total <= 0 ==> range is NoRows,
            total > 0 ==> range == (RowRange::Rows {
                start: (page * PAGE_SIZE + 1) as i64,
                end: if (page + 1) * PAGE_SIZE < total {
                    ((page + 1) * PAGE_SIZE) as i64
                } else {
                    total
                },
                total,
            }),
    {
        if total <= 0 {
            RowRange::NoRows
        } else {
            let start = page * PAGE_SIZE + 1;
            let last = (page + 1) * PAGE_SIZE;
            let end = if last < total {
                last
            } else {
                total
            };
            RowRange::Rows { start, end, total }
        }
    }

    /// The page number that the pagination bar counts from: the page shown,
    /// or 0.
    pub fn pagination_page(&self) -> (page: i64)
        requires
            self.wf(),
        ensures
            page == match self.shown_page() {
                Some(p) => p,
                None => 0,
            },
            0 <= page <= MAX_PAGE,
    {
        match &self.table {
            TableState::Ready { page, .. } => *page,
            _ => 0,
        }
    }

    /// What the editor bar says: the row (1-based) and the column name of the
    /// edited cell (no name when the column is not on the page shown), or
    /// that a cell can be clicked.
    pub fn editor_bar_label(&self) -> (label: EditorBarLabel)
        requires
            self.editing_cell matches Some((row, _)) ==> row < usize::MAX,
        ensures
            self.editing_cell is None ==> label is ClickToEdit,
            self.editing_cell matches Some((row, col)) ==> label matches EditorBarLabel::Editing {
                row: r,
                column,
            } && r == row + 1 && column@ == match self.table {
                TableState::Ready { columns, .. } => if col < columns@.len() {
                    columns@[col as int].name@
                } else {
                    Seq::empty()
                },
                _ => Seq::empty(),
            },
    {
        match self.editing_cell {
            Some((row, col)) => {
                let column = match &self.table {
                    TableState::Ready { columns, .. } => {
                        if col < columns.len() {
                            columns[col].name.clone()
                        } else {
                            String::new()
                        }
                    },
                    _ => String::new(),
                };
                EditorBarLabel::Editing { row: row + 1, column }
            },
            None => EditorBarLabel::ClickToEdit,
        }
    }

    /// The cell that row `index` of the page shows in column `col`: NULL where
    /// the page has no such cell.
    pub fn cell_at(rows: &Vec<Vec<CellValue>>, index: usize, col: usize) -> (cell: CellValue)
        ensures
            index < rows@.len() && col < rows@[index as int]@.len() ==> cell@
                == rows@[index as int]@[col as int]@,
            !(index < rows@.len() && col < rows@[index as int]@.len()) ==> cell is Null,
    {
        if index < rows.len() && col < rows[index].len() {
            copy_cell(&rows[index][col])
        } else {
            CellValue::Null
        }
    }
}


/// Going one page forward and then one back asks for the page shown before;
/// going back from the first page stays on it.
pub proof fn lemma_next_then_prev(page: i64)
    requires
        0 <= page < MAX_PAGE,
    ensures
        clamped_page((clamped_page((page + 1) as i64) - 1) as i64) == page,
        clamped_page((0 - 1) as i64) == 0,
{
}

/// The rows that the pagination bar reports lie in the table and on the
/// page: from the page's first row on, at most a page of them, and not past
/// the last row.
pub proof fn lemma_row_range_within_page(page: i64, total: i64)
    requires
        0 <= page <= MAX_PAGE,
        page * PAGE_SIZE < total,
    ensures
        ({
            let start = page * PAGE_SIZE + 1;
            let end = if (page + 1) * PAGE_SIZE < total { (page + 1) * PAGE_SIZE } else { total as int };
            &&& 1 <= start <= end <= total
            &&& end - start + 1 <= PAGE_SIZE
        }),
{
}


/// The object bar has one button for each table and view and none for
/// anything else: every position it lists is a table or a view, the
/// positions rise, and every table or view among the first `n` objects is
/// listed.
pub proof fn lemma_chip_positions(objects: Seq<ObjectView>, n: nat)
    requires
        n <= objects.len(),
    ensures
        forall|k: int|
            0 <= k < chip_positions(objects, n).len() ==> 0 <= #[trigger] chip_positions(
                objects,
                n,
            )[k] < n && (objects[chip_positions(objects, n)[k]].kind == DbObjectKind::Table
                || objects[chip_positions(objects, n)[k]].kind == DbObjectKind::View),
        forall|k1: int, k2: int|
            0 <= k1 < k2 < chip_positions(objects, n).len() ==> #[trigger] chip_positions(
                objects,
                n,
            )[k1] < #[trigger] chip_positions(objects, n)[k2],
        forall|i: int|
            0 <= i < n && ((#[trigger] objects[i]).kind == DbObjectKind::Table || objects[i].kind
                == DbObjectKind::View) ==> exists|k: int|
                0 <= k < chip_positions(objects, n).len() && chip_positions(objects, n)[k] == i,
    decreases n,
{
    if n > 0 {
        lemma_chip_positions(objects, (n - 1) as nat);
        let before = chip_positions(objects, (n - 1) as nat);
        let now = chip_positions(objects, n);
        assert forall|i: int|
            0 <= i < n && ((#[trigger] objects[i]).kind == DbObjectKind::Table || objects[i].kind
                == DbObjectKind::View) implies exists|k: int|
                0 <= k < now.len() && now[k] == i by {
            if i < n - 1 {
                let k = choose|k: int| 0 <= k < before.len() && before[k] == i;
                assert(now[k] == i);
            } else {
                assert(now[before.len() as int] == i);
            }
        }
    }
}

} // verus!
