//! The data layer of the SQLite viewer: recognising database files, the
//! objects and columns of a database, cell values, the SQL text that reads
//! and edits a table, and the assembly of a page of rows.
//!
//! Opening a database and running statements is file I/O; it stays with the
//! caller, which hands the rows it read to the functions here and runs the
//! statements they build.

use vstd::prelude::*;
use crate::text::{
    decimal, eq_ignore_ascii_case, eq_ignoring_ascii_case, joined,
    lemma_eq_ignoring_ascii_case_equivalence, push_decimal, push_joined,
    push_quoted, push_signed_decimal, quoted, signed_decimal, str_eq,
};

verus! {

/// The first 16 bytes of every SQLite 3 database file: `SQLite format 3\0`.
pub const SQLITE_MAGIC: [u8; 16] = [83, 81, 76, 105, 116, 101, 32, 102, 111, 114, 109, 97, 116, 32, 51, 0];

/// Whether the bytes read from the start of a file begin with [`SQLITE_MAGIC`].
pub open spec fn starts_with_magic(head: Seq<u8>) -> bool {
    &&& head.len() >= 16
    &&& head.subrange(0, 16) == SQLITE_MAGIC@
}

/// Decides from the bytes read at the start of a file (at most what one read
/// gave) whether the file is a SQLite database.
pub fn has_sqlite_magic(head: &[u8]) -> (res: bool)
    ensures
        res == starts_with_magic(head@),
{
    if head.len() < 16 {
        return false;
    }
    let magic = SQLITE_MAGIC;
    let mut i: usize = 0;
    while i < 16
        invariant
            head@.len() >= 16,
            magic@ == SQLITE_MAGIC@,
            0 <= i <= 16,
            forall|j: int| 0 <= j < i ==> head@[j] == magic@[j],
        decreases 16 - i,
    {
        if head[i] != magic[i] {
            return false;
        }
        i = i + 1;
    }
    proof {
        assert(head@.subrange(0, 16) =~= SQLITE_MAGIC@);
    }
    true
}

/// An extension that a SQLite database file may carry: `db`, `sqlite` or
/// `sqlite3`, in any case. (Unicode lowercasing maps no non-ASCII character to
/// ASCII text other than `k`, which none of these hold, so comparing up to
/// ASCII case decides the same as comparing the lowercased text.)
pub open spec fn sqlite_extension(ext: Seq<char>) -> bool {
    ||| eq_ignoring_ascii_case(ext, "db"@)
    ||| eq_ignoring_ascii_case(ext, "sqlite"@)
    ||| eq_ignoring_ascii_case(ext, "sqlite3"@)
}

/// Whether an extension may belong to a SQLite database file.
pub fn is_sqlite_extension(ext: &str) -> (res: bool)
    ensures
        res == sqlite_extension(ext@),
{
    eq_ignore_ascii_case(ext, "db") || eq_ignore_ascii_case(ext, "sqlite") || eq_ignore_ascii_case(
        ext,
        "sqlite3",
    )
}

/// `e` stands in `path` right after a `.`, and holds no `.` and no `/`.
pub open spec fn extension_within(path: Seq<char>, e: Seq<char>) -> bool {
    &&& exists|i: int|
        0 <= i && i + 1 + e.len() <= path.len() && #[trigger] path[i] == '.'
            && path.subrange(i + 1, i + 1 + e.len()) == e
    &&& !e.contains('.')
    &&& !e.contains('/')
}

/// A path that is a single plain file name on every platform: not empty, not
/// `.` or `..`, and without `/`, `\` or `:`.
pub open spec fn plain_file_name(path: Seq<char>) -> bool {
    &&& path.len() > 0
    &&& path != "."@
    &&& path != ".."@
    &&& !path.contains('/')
    &&& !path.contains('\\')
    &&& !path.contains(':')
}

/// `i` is the position of the last `.` of `name`, and it is not the first
/// character.
pub open spec fn is_last_inner_dot(name: Seq<char>, i: int) -> bool {
    &&& 0 < i < name.len()
    &&& name[i] == '.'
    &&& !name.subrange(i + 1, name.len() as int).contains('.')
}

/// The extension of a file name: what follows its last `.`, unless the name
/// has no `.` besides a leading one.
pub open spec fn file_name_extension(name: Seq<char>) -> Option<Seq<char>> {
    if exists|i: int| is_last_inner_dot(name, i) {
        let i = choose|i: int| is_last_inner_dot(name, i);
        Some(name.subrange(i + 1, name.len() as int))
    } else {
        None
    }
}

/// The text of an optional string slice.
pub open spec fn opt_str_text(o: Option<&str>) -> Option<Seq<char>> {
    match o {
        Some(s) => Some(s@),
        None => None,
    }
}

/// The text of `path` after its last `/` (all of it when it has none).
pub open spec fn last_component(path: Seq<char>) -> Seq<char>
    decreases path.len(),
{
    if path.len() == 0 {
        path
    } else if path.last() == '/' {
        Seq::empty()
    } else {
        last_component(path.drop_last()).push(path.last())
    }
}

/// `path` without the trailing `/` and `/.` that do not change its final
/// component (a lone `/` stays).
pub open spec fn trim_trailing(path: Seq<char>) -> Seq<char>
    decreases path.len(),
{
    if path.len() >= 2 && path.last() == '/' {
        trim_trailing(path.drop_last())
    } else if path.len() >= 2 && path.last() == '.' && path[path.len() - 2] == '/' {
        trim_trailing(path.drop_last())
    } else {
        path
    }
}

/// The text of the final component of a `/`-separated path: what follows the
/// last `/` once trailing `/` and `/.` are dropped (empty when nothing is
/// left, as for the empty path and `/`).
pub open spec fn final_component(path: Seq<char>) -> Seq<char> {
    last_component(trim_trailing(path))
}

/// A path whose components are separated by `/` alone on every platform: it
/// holds no `\` and no `:`, and does not begin with two `/` (which on some
/// platforms begins a network prefix).
pub open spec fn slash_separated(path: Seq<char>) -> bool {
    &&& !path.contains('\\')
    &&& !path.contains(':')
    &&& !(path.len() >= 2 && path[0] == '/' && path[1] == '/')
}

/// `std::path::Path::extension` of `path`, as text: the part of the path's
/// final component after its last `.`, or nothing when that component has no
/// `.` besides a leading one, or when there is no final component (the empty
/// path, `/`, a path ending in `..`).
///
/// `/` separates components on every platform, and trailing `/` and `/.` do
/// not change the final component (`foo.txt/.` and `foo.txt/` name
/// `foo.txt`); other separators and prefixes (`\`, drive letters with `:`, a
/// leading `//`) depend on the platform. So the contract states the result
/// exactly for a `/`-separated path: `None` when its final component is `..`
/// or there is none, and the extension of that component when it is a plain
/// file name. For any path it states that an extension stands in the path
/// right after a `.` and holds neither `.` nor `/`, and that a path without
/// `.` has none. It leaves open the result for paths that hold `\` or `:` or
/// begin with `//`, and for a `/`-separated path whose final component is `.`
/// (such as `.` or `./`).
#[verifier::external_body]
fn path_extension(path: &str) -> (ext: Option<&str>)
    ensures
        !path@.contains('.') ==> ext is None,
        ext matches Some(e) ==> extension_within(path@, e@),
        slash_separated(path@) && (final_component(path@) == ".."@ || final_component(
            path@,
        ).len() == 0) ==> ext is None,
        slash_separated(path@) && plain_file_name(final_component(path@)) ==> opt_str_text(ext)
            == file_name_extension(final_component(path@)),
{
    match std::path::Path::new(path).extension() {
        Some(e) => e.to_str(),
        None => None,
    }
}

/// The extension of a path (see `path_extension`).
pub fn extension_of(path: &str) -> (ext: Option<&str>)
    ensures
        !path@.contains('.') ==> ext is None,
        ext matches Some(e) ==> extension_within(path@, e@),
        slash_separated(path@) && (final_component(path@) == ".."@ || final_component(
            path@,
        ).len() == 0) ==> ext is None,
        slash_separated(path@) && plain_file_name(final_component(path@)) ==> opt_str_text(ext)
            == file_name_extension(final_component(path@)),
{
    path_extension(path)
}

/// Whether a file at `path` is, by its extension, a candidate SQLite
/// database: it has an extension and the extension is a SQLite one.
pub fn is_sqlite_path(path: &str) -> (res: bool)
    ensures
        !path@.contains('.') ==> !res,
        res ==> exists|e: Seq<char>| extension_within(path@, e) && sqlite_extension(e),
        slash_separated(path@) && (final_component(path@) == ".."@ || final_component(
            path@,
        ).len() == 0) ==> !res,
        slash_separated(path@) && plain_file_name(final_component(path@)) ==> res
            == match file_name_extension(final_component(path@)) {
            Some(e) => sqlite_extension(e),
            None => false,
        },
{
    match extension_of(path) {
        Some(e) => is_sqlite_extension(e),
        None => false,
    }
}

/// The kinds of database objects the viewer lists.
#[derive(Clone, Copy, Debug, PartialEq, Eq, Structural)]
pub enum DbObjectKind {
    Table,
    View,
    Index,
    Trigger,
}

/// The name SQLite gives a kind in the `type` column of `sqlite_master`.
pub open spec fn kind_name(kind: DbObjectKind) -> Seq<char> {
    match kind {
        DbObjectKind::Table => "table"@,
        DbObjectKind::View => "view"@,
        DbObjectKind::Index => "index"@,
        DbObjectKind::Trigger => "trigger"@,
    }
}

/// The kind named by a `type` value of `sqlite_master`, if it is one the
/// viewer lists.
pub open spec fn kind_of_name(name: Seq<char>) -> Option<DbObjectKind> {
    if name == "table"@ {
        Some(DbObjectKind::Table)
    } else if name == "view"@ {
        Some(DbObjectKind::View)
    } else if name == "index"@ {
        Some(DbObjectKind::Index)
    } else if name == "trigger"@ {
        Some(DbObjectKind::Trigger)
    } else {
        None
    }
}

impl DbObjectKind {
    /// The kind's name, for display.
    pub fn display_name(&self) -> (name: &'static str)
        ensures
            name@ == kind_name(*self),
    {
        match self {
            DbObjectKind::Table => "table",
            DbObjectKind::View => "view",
            DbObjectKind::Index => "index",
            DbObjectKind::Trigger => "trigger",
        }
    }

    /// The kind's name as it stands in SQL (the `type` column of `sqlite_master`).
    pub fn type_sql(&self) -> (name: &'static str)
        ensures
            name@ == kind_name(*self),
    {
        match self {
            DbObjectKind::Table => "table",
            DbObjectKind::View => "view",
            DbObjectKind::Index => "index",
            DbObjectKind::Trigger => "trigger",
        }
    }

    /// The kind that a `type` value of `sqlite_master` names; `None` for any
    /// other value (such objects are not listed).
    pub fn from_type_sql(name: &str) -> (kind: Option<DbObjectKind>)
        ensures
            kind == kind_of_name(name@),
    {
        if str_eq(name, "table") {
            Some(DbObjectKind::Table)
        } else if str_eq(name, "view") {
            Some(DbObjectKind::View)
        } else if str_eq(name, "index") {
            Some(DbObjectKind::Index)
        } else if str_eq(name, "trigger") {
            Some(DbObjectKind::Trigger)
        } else {
            None
        }
    }
}


/// The text of an optional string.
pub open spec fn opt_text(o: Option<String>) -> Option<Seq<char>> {
    match o {
        Some(s) => Some(s@),
        None => None,
    }
}

fn copy_opt_string(o: &Option<String>) -> (c: Option<String>)
    ensures
        opt_text(c) == opt_text(*o),
{
    match o {
        Some(s) => Some(s.clone()),
        None => None,
    }
}

/// A database object: a table, view, index or trigger.
#[derive(Clone, Debug)]
pub struct DbObject {
    pub name: String,
    pub kind: DbObjectKind,
    /// The table an index or trigger belongs to.
    pub tbl_name: Option<String>,
    /// The statement that created the object, as `sqlite_master` keeps it.
    pub sql: Option<String>,
}

/// What a [`DbObject`] holds, as text.
pub struct ObjectView {
    pub name: Seq<char>,
    pub kind: DbObjectKind,
    pub tbl_name: Option<Seq<char>>,
    pub sql: Option<Seq<char>>,
}

impl View for DbObject {
    type V = ObjectView;

    open spec fn view(&self) -> ObjectView {
        ObjectView {
            name: self.name@,
            kind: self.kind,
            tbl_name: opt_text(self.tbl_name),
            sql: opt_text(self.sql),
        }
    }
}

/// One row of `SELECT name, type, tbl_name, sql FROM sqlite_master`.
pub struct MasterRow {
    pub name: String,
    pub object_type: String,
    pub tbl_name: Option<String>,
    pub sql: Option<String>,
}

/// What a [`MasterRow`] holds, as text.
pub struct MasterRowView {
    pub name: Seq<char>,
    pub object_type: Seq<char>,
    pub tbl_name: Option<Seq<char>>,
    pub sql: Option<Seq<char>>,
}

impl View for MasterRow {
    type V = MasterRowView;

    open spec fn view(&self) -> MasterRowView {
        MasterRowView {
            name: self.name@,
            object_type: self.object_type@,
            tbl_name: opt_text(self.tbl_name),
            sql: opt_text(self.sql),
        }
    }
}

/// The statement that lists the objects of a database, leaving out SQLite's
/// own objects (those whose name begins with exactly `sqlite_`), ordered by
/// type and then name.
pub const LIST_OBJECTS_SQL: &'static str = "SELECT name, type, tbl_name, sql FROM sqlite_master WHERE substr(name, 1, 7) <> 'sqlite_' ORDER BY type, name";

/// The objects that rows of `sqlite_master` describe, in the rows' order;
/// a row whose type is none of table, view, index and trigger is left out.
pub open spec fn listed_objects(rows: Seq<MasterRowView>) -> Seq<ObjectView>
    decreases rows.len(),
{
    if rows.len() == 0 {
        Seq::empty()
    } else {
        let before = listed_objects(rows.drop_last());
        let r = rows.last();
        match kind_of_name(r.object_type) {
            Some(kind) => before.push(
                ObjectView { name: r.name, kind, tbl_name: r.tbl_name, sql: r.sql },
            ),
            None => before,
        }
    }
}

/// Turns the rows of [`LIST_OBJECTS_SQL`] into the objects the viewer lists.
pub fn objects_from_master(rows: Vec<MasterRow>) -> (objects: Vec<DbObject>)
    ensures
        objects@.map_values(|o: DbObject| o@) == listed_objects(
            rows@.map_values(|r: MasterRow| r@),
        ),
{
    let ghost views = rows@.map_values(|r: MasterRow| r@);
    let mut objects: Vec<DbObject> = Vec::new();
    for r in it: rows.into_iter()
        invariant
            it.seq() == rows@,
            views == rows@.map_values(|r: MasterRow| r@),
            objects@.map_values(|o: DbObject| o@) == listed_objects(views.take(it.index() as int)),
    {
        proof {
            assert(views.take(it.index() + 1).drop_last() =~= views.take(it.index() as int));
            assert(views.take(it.index() + 1).last() == r@);
        }
        let ghost before = objects@;
        match DbObjectKind::from_type_sql(r.object_type.as_str()) {
            Some(kind) => {
                objects.push(DbObject { name: r.name, kind, tbl_name: r.tbl_name, sql: r.sql });
                proof {
                    assert(objects@.map_values(|o: DbObject| o@) =~= before.map_values(
                        |o: DbObject| o@,
                    ).push(objects@.last()@));
                }
            },
            None => {},
        }
    }
    proof {
        assert(views.take(views.len() as int) =~= views);
    }
    objects
}

/// Information on one column of a table or view.
#[derive(Clone, Debug)]
pub struct ColumnInfo {
    pub name: String,
    /// The declared type; may be empty, as SQLite does not enforce types.
    pub declared_type: String,
    pub not_null: bool,
    pub is_pk: bool,
    /// Whether the column is an alias of the rowid (an `INTEGER PRIMARY KEY`).
    pub is_rowid_alias: bool,
}

/// What a [`ColumnInfo`] holds, as text.
pub struct ColumnView {
    pub name: Seq<char>,
    pub declared_type: Seq<char>,
    pub not_null: bool,
    pub is_pk: bool,
    pub is_rowid_alias: bool,
}

impl View for ColumnInfo {
    type V = ColumnView;

    open spec fn view(&self) -> ColumnView {
        ColumnView {
            name: self.name@,
            declared_type: self.declared_type@,
            not_null: self.not_null,
            is_pk: self.is_pk,
            is_rowid_alias: self.is_rowid_alias,
        }
    }
}

/// The columns of a slice, as views.
pub open spec fn column_views(columns: Seq<ColumnInfo>) -> Seq<ColumnView> {
    columns.map_values(|c: ColumnInfo| c@)
}

fn copy_column(c: &ColumnInfo) -> (d: ColumnInfo)
    ensures
        d@ == c@,
{
    ColumnInfo {
        name: c.name.clone(),
        declared_type: c.declared_type.clone(),
        not_null: c.not_null,
        is_pk: c.is_pk,
        is_rowid_alias: c.is_rowid_alias,
    }
}

pub(crate) fn copy_columns(columns: &[ColumnInfo]) -> (copy: Vec<ColumnInfo>)
    ensures
        column_views(copy@) == column_views(columns@),
{
    let mut copy: Vec<ColumnInfo> = Vec::new();
    let n = columns.len();
    let mut i: usize = 0;
    while i < n
        invariant
            n == columns@.len(),
            0 <= i <= n,
            copy@.len() == i,
            forall|j: int| 0 <= j < i ==> #[trigger] copy@[j]@ == columns@[j]@,
        decreases n - i,
    {
        copy.push(copy_column(&columns[i]));
        i = i + 1;
    }
    proof {
        assert(column_views(copy@) =~= column_views(columns@));
    }
    copy
}

/// The statement that describes the columns of `table`.
pub fn table_info_sql(table: &str) -> (sql: String)
    ensures
        sql@ == "PRAGMA table_info("@ + quoted(table@, '"') + ")"@,
{
    let mut sql = String::from_str("PRAGMA table_info(");
    push_quoted(&mut sql, table, '"');
    sql.append(")");
    sql
}

/// One row of `PRAGMA table_info`, with the fields the viewer reads.
pub struct TableInfoRow {
    pub name: String,
    pub declared_type: String,
    pub not_null: bool,
    /// The column's position in the primary key (1-based), or 0.
    pub pk: i64,
}

/// The column that a row of `PRAGMA table_info` describes, in a table whose
/// primary key has `key_columns` columns: it is part of the primary key when
/// `pk > 0`, and an alias of the rowid when it is moreover the key's only
/// column and declared `INTEGER` (in any case), an `INTEGER PRIMARY KEY`.
pub open spec fn column_of_table_info(
    name: Seq<char>,
    declared_type: Seq<char>,
    not_null: bool,
    pk: i64,
    key_columns: nat,
) -> ColumnView {
    ColumnView {
        name,
        declared_type,
        not_null,
        is_pk: pk > 0,
        is_rowid_alias: pk > 0 && key_columns == 1 && eq_ignoring_ascii_case(
            declared_type,
            "integer"@,
        ),
    }
}

/// How many of the first `n` rows of `PRAGMA table_info` are primary-key
/// columns.
pub open spec fn key_columns(rows: Seq<TableInfoRow>, n: nat) -> nat
    decreases n,
{
    if n == 0 {
        0
    } else {
        key_columns(rows, (n - 1) as nat) + if rows[n - 1].pk > 0 {
            1nat
        } else {
            0nat
        }
    }
}

impl ColumnInfo {
    /// The column that a row of `PRAGMA table_info` describes, in a table
    /// whose primary key has `key_columns` columns.
    pub fn from_table_info(row: TableInfoRow, key_columns: usize) -> (c: ColumnInfo)
        ensures
            c@ == column_of_table_info(
                row.name@,
                row.declared_type@,
                row.not_null,
                row.pk,
                key_columns as nat,
            ),
    {
        let is_rowid_alias = row.pk > 0 && key_columns == 1 && eq_ignore_ascii_case(
            row.declared_type.as_str(),
            "integer",
        );
        ColumnInfo {
            name: row.name,
            declared_type: row.declared_type,
            not_null: row.not_null,
            is_pk: row.pk > 0,
            is_rowid_alias,
        }
    }
}

/// Turns the rows of `PRAGMA table_info` into column information, in order.
pub fn columns_from_table_info(rows: Vec<TableInfoRow>) -> (columns: Vec<ColumnInfo>)
    ensures
        columns@.len() == rows@.len(),
        forall|i: int|
            0 <= i < rows@.len() ==> #[trigger] columns@[i]@ == column_of_table_info(
                rows@[i].name@,
                rows@[i].declared_type@,
                rows@[i].not_null,
                rows@[i].pk,
                key_columns(rows@, rows@.len()),
            ),
{
    let n = rows.len();
    let mut keys: usize = 0;
    let mut j: usize = 0;
    while j < n
        invariant
            n == rows@.len(),
            0 <= j <= n,
            keys == key_columns(rows@, j as nat),
            keys <= j,
        decreases n - j,
    {
        if rows[j].pk > 0 {
            keys = keys + 1;
        }
        j = j + 1;
    }
    let mut columns: Vec<ColumnInfo> = Vec::new();
    for r in it: rows.into_iter()
        invariant
            it.seq() == rows@,
            keys == key_columns(rows@, rows@.len()),
            columns@.len() == it.index(),
            forall|i: int|
                0 <= i < it.index() ==> #[trigger] columns@[i]@ == column_of_table_info(
                    rows@[i].name@,
                    rows@[i].declared_type@,
                    rows@[i].not_null,
                    rows@[i].pk,
                    key_columns(rows@, rows@.len()),
                ),
    {
        columns.push(ColumnInfo::from_table_info(r, keys));
    }
    columns
}

/// A cell value, as the viewer shows and edits it.
///
/// A REAL value is held as the text that Rust's `Display` gives for it: that
/// text is all the viewer reads of a real (to show it and to quote it).
#[derive(Clone, Debug, PartialEq)]
pub enum CellValue {
    Null,
    Integer(i64),
    Real(String),
    Text(String),
    Blob(Vec<u8>),
}

/// What a cell or SQL value holds.
pub enum CellView {
    Null,
    Integer(i64),
    Real(Seq<char>),
    Text(Seq<char>),
    Blob(Seq<u8>),
}

impl View for CellValue {
    type V = CellView;

    open spec fn view(&self) -> CellView {
        match self {
            CellValue::Null => CellView::Null,
            CellValue::Integer(i) => CellView::Integer(*i),
            CellValue::Real(t) => CellView::Real(t@),
            CellValue::Text(t) => CellView::Text(t@),
            CellValue::Blob(b) => CellView::Blob(b@),
        }
    }
}

/// A value as SQLite hands it out for one column of a row (a REAL as the
/// text that Rust's `Display` gives for it).
#[derive(Clone, Debug, PartialEq)]
pub enum SqlValue {
    Null,
    Integer(i64),
    Real(String),
    Text(String),
    Blob(Vec<u8>),
}

impl View for SqlValue {
    type V = CellView;

    open spec fn view(&self) -> CellView {
        match self {
            SqlValue::Null => CellView::Null,
            SqlValue::Integer(i) => CellView::Integer(*i),
            SqlValue::Real(t) => CellView::Real(t@),
            SqlValue::Text(t) => CellView::Text(t@),
            SqlValue::Blob(b) => CellView::Blob(b@),
        }
    }
}

/// The cell for a SQL value: the same value, except that a BLOB keeps only
/// its first `preview` bytes.
pub open spec fn cell_from_sql(v: CellView, preview: usize) -> CellView {
    match v {
        CellView::Blob(b) => CellView::Blob(
            if b.len() <= preview {
                b
            } else {
                b.subrange(0, preview as int)
            },
        ),
        _ => v,
    }
}

/// The text a cell shows: nothing for NULL, the decimal notation of an
/// integer, the text of a real or a text, and `<BLOB:n字节>` for a BLOB of
/// `n` bytes.
pub open spec fn cell_text(v: CellView) -> Seq<char> {
    match v {
        CellView::Null => Seq::empty(),
        CellView::Integer(i) => signed_decimal(i as int),
        CellView::Real(t) => t,
        CellView::Text(t) => t,
        CellView::Blob(b) => "<BLOB:"@ + decimal(b.len()) + "字节>"@,
    }
}

/// The SQL literal that locates a row by a cell's value: `NULL`, the number,
/// or the quoted text; a BLOB has none.
pub open spec fn literal_of(v: CellView) -> Option<Seq<char>> {
    match v {
        CellView::Null => Some("NULL"@),
        CellView::Integer(i) => Some(signed_decimal(i as int)),
        CellView::Real(t) => Some(t),
        CellView::Text(t) => Some(quoted(t, '\'')),
        CellView::Blob(_) => None,
    }
}

impl CellValue {
    /// The text the cell shows.
    pub fn display(&self) -> (text: String)
        ensures
            text@ == cell_text(self@),
    {
        match self {
            CellValue::Null => String::new(),
            CellValue::Integer(v) => crate::text::signed_decimal_string(*v),
            CellValue::Real(t) => t.clone(),
            CellValue::Text(t) => t.clone(),
            CellValue::Blob(b) => {
                let mut text = String::from_str("<BLOB:");
                push_decimal(&mut text, b.len() as u64);
                text.append("字节>");
                text
            },
        }
    }

    /// The cell for a value read from SQLite; a BLOB keeps only its first
    /// `blob_preview_len` bytes, so that a huge field cannot swamp the view.
    pub fn from_sql(value: SqlValue, blob_preview_len: usize) -> (cell: CellValue)
        ensures
            cell@ == cell_from_sql(value@, blob_preview_len),
    {
        match value {
            SqlValue::Null => CellValue::Null,
            SqlValue::Integer(v) => CellValue::Integer(v),
            SqlValue::Real(t) => CellValue::Real(t),
            SqlValue::Text(t) => CellValue::Text(t),
            SqlValue::Blob(b) => {
                let mut v = b;
                v.truncate(blob_preview_len);
                proof {
                    if b@.len() == blob_preview_len {
                        assert(b@.subrange(0, blob_preview_len as int) =~= b@);
                    }
                }
                CellValue::Blob(v)
            },
        }
    }
}

/// The errors of the data layer.
#[derive(Clone, Copy, Debug, PartialEq, Eq, Structural)]
pub enum DbError {
    /// The new text of a cell is over [`MAX_CELL_BYTES`] bytes.
    ValueTooLarge,
    /// The column to edit does not exist.
    ColumnOutOfRange,
    /// The row has no value in its rowid-alias column.
    KeyValueMissing,
    /// A BLOB value cannot locate a row.
    BlobLocator,
    /// The table is a `WITHOUT ROWID` table.
    WithoutRowid,
    /// No row of the table matches the edited row.
    RowNotLocated,
    /// The column to edit holds BLOBs.
    BlobColumn,
}

/// The message the viewer shows for an error.
pub open spec fn error_message(e: DbError) -> Seq<char> {
    match e {
        DbError::ValueTooLarge => "单元格内容过大，拒绝写入"@,
        DbError::ColumnOutOfRange => "列索引越界"@,
        DbError::KeyValueMissing => "无法定位主键值"@,
        DbError::BlobLocator => "无法用 BLOB 值定位行"@,
        DbError::WithoutRowid => "WITHOUT ROWID 表暂不支持单元格编辑"@,
        DbError::RowNotLocated => "无法在表中唯一定位该行，单元格编辑被取消"@,
        DbError::BlobColumn => "BLOB 列暂不支持单元格编辑"@,
    }
}

impl DbError {
    /// The message the viewer shows for this error.
    pub fn message(&self) -> (m: &'static str)
        ensures
            m@ == error_message(*self),
    {
        match self {
            DbError::ValueTooLarge => "单元格内容过大，拒绝写入",
            DbError::ColumnOutOfRange => "列索引越界",
            DbError::KeyValueMissing => "无法定位主键值",
            DbError::BlobLocator => "无法用 BLOB 值定位行",
            DbError::WithoutRowid => "WITHOUT ROWID 表暂不支持单元格编辑",
            DbError::RowNotLocated => "无法在表中唯一定位该行，单元格编辑被取消",
            DbError::BlobColumn => "BLOB 列暂不支持单元格编辑",
        }
    }
}

/// A name as a quoted SQL identifier: between double quotes, each double
/// quote inside doubled.
pub fn quote_identifier(s: &str) -> (q: String)
    ensures
        q@ == quoted(s@, '"'),
{
    let mut q = String::new();
    push_quoted(&mut q, s, '"');
    proof {
        assert(Seq::<char>::empty() + quoted(s@, '"') =~= quoted(s@, '"'));
    }
    q
}

/// A text as a SQL string literal: between single quotes, each single quote
/// inside doubled.
pub fn quote_text(s: &str) -> (q: String)
    ensures
        q@ == quoted(s@, '\''),
{
    let mut q = String::new();
    push_quoted(&mut q, s, '\'');
    proof {
        assert(Seq::<char>::empty() + quoted(s@, '\'') =~= quoted(s@, '\''));
    }
    q
}

/// The SQL literal that locates a row by a cell's value; a BLOB has none.
pub fn quote_literal(v: &CellValue) -> (lit: Result<String, DbError>)
    ensures
        match literal_of(v@) {
            Some(l) => lit matches Ok(s) && s@ == l,
            None => lit == Err::<String, DbError>(DbError::BlobLocator),
        },
{
    match v {
        CellValue::Null => Ok(String::from_str("NULL")),
        CellValue::Integer(i) => Ok(crate::text::signed_decimal_string(*i)),
        CellValue::Real(t) => Ok(t.clone()),
        CellValue::Text(t) => Ok(quote_text(t.as_str())),
        CellValue::Blob(_) => Err(DbError::BlobLocator),
    }
}

/// The statement that counts the rows of `table`.
pub open spec fn count_rows_statement(table: Seq<char>) -> Seq<char> {
    "SELECT COUNT(*) FROM "@ + quoted(table, '"')
}

/// The statement that counts the rows of `table` (for the pagination status).
pub fn count_rows_sql(table: &str) -> (sql: String)
    ensures
        sql@ == count_rows_statement(table@),
{
    let mut sql = String::from_str("SELECT COUNT(*) FROM ");
    push_quoted(&mut sql, table, '"');
    sql
}


/// How many bytes of a BLOB a row keeps for display (256 KiB).
pub const BLOB_PREVIEW: usize = 256 * 1024;

/// One row of a page: the cell values, aligned with the columns.
pub struct DbRow {
    pub values: Vec<CellValue>,
}

/// The cells of a row, as views.
pub open spec fn cell_views(values: Seq<CellValue>) -> Seq<CellView> {
    values.map_values(|c: CellValue| c@)
}

/// The cells of a row read from SQLite, each BLOB cut to [`BLOB_PREVIEW`] bytes.
pub open spec fn row_from_sql(values: Seq<CellView>) -> Seq<CellView> {
    values.map_values(|v: CellView| cell_from_sql(v, BLOB_PREVIEW))
}

/// The row that the values of one result row make.
pub fn read_row(values: Vec<SqlValue>) -> (row: DbRow)
    ensures
        cell_views(row.values@) == row_from_sql(values@.map_values(|v: SqlValue| v@)),
{
    let ghost views = values@.map_values(|v: SqlValue| v@);
    let mut cells: Vec<CellValue> = Vec::with_capacity(values.len());
    for v in it: values.into_iter()
        invariant
            it.seq() == values@,
            views == values@.map_values(|v: SqlValue| v@),
            cells@.len() == it.index(),
            forall|j: int|
                0 <= j < it.index() ==> #[trigger] cells@[j]@ == cell_from_sql(views[j], BLOB_PREVIEW),
    {
        cells.push(CellValue::from_sql(v, BLOB_PREVIEW));
    }
    proof {
        assert(cell_views(cells@) =~= row_from_sql(views));
    }
    DbRow { values: cells }
}

/// `i` is the first column that aliases the rowid.
pub open spec fn is_first_rowid_alias(columns: Seq<ColumnView>, i: int) -> bool {
    &&& 0 <= i < columns.len()
    &&& columns[i].is_rowid_alias
    &&& forall|j: int| 0 <= j < i ==> !(#[trigger] columns[j]).is_rowid_alias
}

/// The first column that aliases the rowid, if any.
pub open spec fn first_rowid_alias(columns: Seq<ColumnView>) -> Option<int> {
    if exists|i: int| is_first_rowid_alias(columns, i) {
        Some(choose|i: int| is_first_rowid_alias(columns, i))
    } else {
        None
    }
}

/// The name of the first column that aliases the rowid, if any.
pub open spec fn rowid_alias_name(columns: Seq<ColumnView>) -> Option<Seq<char>> {
    match first_rowid_alias(columns) {
        Some(i) => Some(columns[i].name),
        None => None,
    }
}

/// The position of the first column that aliases the rowid, if any.
pub fn rowid_column(columns: &[ColumnInfo]) -> (pos: Option<usize>)
    ensures
        match pos {
            Some(i) => first_rowid_alias(column_views(columns@)) == Some(i as int),
            None => first_rowid_alias(column_views(columns@)) is None,
        },
{
    let ghost cols = column_views(columns@);
    let n = columns.len();
    let mut i: usize = 0;
    while i < n
        invariant
            n == columns@.len(),
            cols == column_views(columns@),
            0 <= i <= n,
            forall|j: int| 0 <= j < i ==> !(#[trigger] cols[j]).is_rowid_alias,
        decreases n - i,
    {
        if columns[i].is_rowid_alias {
            proof {
                assert(is_first_rowid_alias(cols, i as int));
                let k = choose|k: int| is_first_rowid_alias(cols, k);
                assert(k == i) by {
                    if k < i {
                        assert(!cols[k].is_rowid_alias);
                    } else if k > i {
                        assert(!cols[i as int].is_rowid_alias);
                    }
                }
            }
            return Some(i);
        }
        i = i + 1;
    }
    proof {
        assert(!exists|k: int| is_first_rowid_alias(cols, k));
    }
    None
}

/// The name of the first column that aliases the rowid, if any.
pub fn rowid_alias(columns: &[ColumnInfo]) -> (name: Option<String>)
    ensures
        opt_text(name) == rowid_alias_name(column_views(columns@)),
{
    match rowid_column(columns) {
        Some(i) => Some(columns[i].name.clone()),
        None => None,
    }
}

/// The column names of `columns`, each quoted as an identifier.
pub open spec fn quoted_names(columns: Seq<ColumnView>) -> Seq<Seq<char>> {
    columns.map_values(|c: ColumnView| quoted(c.name, '"'))
}

/// How many rows a page query asks for: one more than the page holds, so that
/// an extra row tells whether another page follows. A negative limit (no
/// limit in SQLite) and the largest one are asked for as they are.
pub open spec fn fetch_limit(limit: i64) -> i64 {
    if 0 <= limit < i64::MAX {
        (limit + 1) as i64
    } else {
        limit
    }
}

/// The statement that reads one page of `table`: the given columns, at most
/// `fetch_limit(limit)` rows from `offset` on.
pub open spec fn page_statement(
    table: Seq<char>,
    columns: Seq<ColumnView>,
    offset: i64,
    limit: i64,
) -> Seq<char> {
    "SELECT "@ + joined(quoted_names(columns), ", "@) + " FROM "@ + quoted(table, '"')
        + " LIMIT "@ + signed_decimal(fetch_limit(limit) as int) + " OFFSET "@ + signed_decimal(
        offset as int,
    )
}

/// The statement that reads one page of `table`.
pub fn load_page_sql(table: &str, columns: &[ColumnInfo], offset: i64, limit: i64) -> (sql: String)
    ensures
        sql@ == page_statement(table@, column_views(columns@), offset, limit),
{
    let mut names: Vec<String> = Vec::new();
    let n = columns.len();
    let mut i: usize = 0;
    while i < n
        invariant
            n == columns@.len(),
            0 <= i <= n,
            names@.len() == i,
            forall|j: int| 0 <= j < i ==> #[trigger] names@[j]@ == quoted(columns@[j].name@, '"'),
        decreases n - i,
    {
        names.push(quote_identifier(columns[i].name.as_str()));
        i = i + 1;
    }
    proof {
        assert(names@.map_values(|p: String| p@) =~= quoted_names(column_views(columns@)));
    }
    let fetch: i64 = if 0 <= limit && limit < i64::MAX {
        limit + 1
    } else {
        limit
    };
    let mut sql = String::from_str("SELECT ");
    push_joined(&mut sql, &names, ", ");
    sql.append(" FROM ");
    push_quoted(&mut sql, table, '"');
    sql.append(" LIMIT ");
    push_signed_decimal(&mut sql, fetch);
    sql.append(" OFFSET ");
    push_signed_decimal(&mut sql, offset);
    proof {
        assert(sql@ =~= page_statement(table@, column_views(columns@), offset, limit));
    }
    sql
}

/// A page of a table's rows.
pub struct TablePage {
    pub columns: Vec<ColumnInfo>,
    /// The rows of this page.
    pub rows: Vec<DbRow>,
    /// Whether another page follows.
    pub has_more: bool,
    /// The column that aliases the rowid, which editing and paging use as key.
    pub rowid_alias: Option<String>,
}

/// How many rows a page of `limit` rows holds (`limit` taken as a `usize`).
pub open spec fn page_capacity(limit: i64) -> usize {
    limit as usize
}

/// Builds a page from the rows that the page statement returned, in order:
/// the page keeps the first `limit` of them, and another page follows exactly
/// when there were more.
pub fn page_from_rows(columns: &[ColumnInfo], fetched: Vec<Vec<SqlValue>>, limit: i64) -> (page:
    TablePage)
    ensures
        column_views(page.columns@) == column_views(columns@),
        opt_text(page.rowid_alias) == rowid_alias_name(column_views(columns@)),
        page.has_more == (fetched@.len() > page_capacity(limit)),
        page.rows@.len() == if fetched@.len() > page_capacity(limit) {
            page_capacity(limit) as int
        } else {
            fetched@.len() as int
        },
        forall|i: int|
            0 <= i < page.rows@.len() ==> cell_views(#[trigger] page.rows@[i].values@)
                == row_from_sql(fetched@[i]@.map_values(|v: SqlValue| v@)),
        0 <= limit <= usize::MAX ==> page.has_more == (fetched@.len() > limit),
        0 <= limit <= usize::MAX ==> page.rows@.len() == if fetched@.len() > limit {
            limit as int
        } else {
            fetched@.len() as int
        },
{
    proof {
        lemma_page_capacity_is_limit(limit);
    }
    let capacity = limit as usize;
    let has_more = fetched.len() > capacity;
    let mut rows: Vec<DbRow> = Vec::new();
    for r in it: fetched.into_iter()
        invariant
            it.seq() == fetched@,
            capacity == page_capacity(limit),
            rows@.len() == if it.index() > capacity {
                capacity as int
            } else {
                it.index() as int
            },
            forall|i: int|
                0 <= i < rows@.len() ==> cell_views(#[trigger] rows@[i].values@) == row_from_sql(
                    fetched@[i]@.map_values(|v: SqlValue| v@),
                ),
    {
        if rows.len() < capacity {
            rows.push(read_row(r));
        }
    }
    TablePage {
        columns: copy_columns(columns),
        rows,
        has_more,
        rowid_alias: rowid_alias(columns),
    }
}


/// The most bytes that the new text of a cell may have (64 KiB).
pub const MAX_CELL_BYTES: usize = 64 * 1024;

/// The length in bytes of a text (what `str::len` gives).
pub open spec fn byte_len(s: Seq<char>) -> usize {
    vstd::utf8::encode_utf8(s).len() as usize
}

/// A request to write new text into one cell of a table.
pub struct CellUpdate {
    pub table: String,
    pub columns: Vec<ColumnInfo>,
    pub column_idx: usize,
    /// The edited row as it was read, aligned with `columns`.
    pub row: Vec<CellValue>,
    pub new_value: String,
}

/// What a [`CellUpdate`] holds.
pub struct CellUpdateView {
    pub table: Seq<char>,
    pub columns: Seq<ColumnView>,
    pub column_idx: usize,
    pub row: Seq<CellView>,
    pub new_value: Seq<char>,
}

impl View for CellUpdate {
    type V = CellUpdateView;

    open spec fn view(&self) -> CellUpdateView {
        CellUpdateView {
            table: self.table@,
            columns: column_views(self.columns@),
            column_idx: self.column_idx,
            row: cell_views(self.row@),
            new_value: self.new_value@,
        }
    }
}

/// What the caller reports to a cell update, each time it has done what the
/// update asked.
pub enum UpdateEvent {
    /// The update begins.
    Start,
    /// A writable connection to the database is open.
    Opened,
    /// Whether [`WITHOUT_ROWID_SQL`] found the table to be a `WITHOUT ROWID`
    /// table (a failed query counts as no).
    WithoutRowidChecked(bool),
    /// The rowids that the lookup statement gave (it asks for at most two);
    /// none when it failed.
    RowidsLookedUp(Vec<i64>),
    /// The UPDATE statement ran.
    Executed,
}

/// What a cell update asks the caller to do next.
pub enum UpdateAction {
    /// Open the database for writing, then report `Opened`.
    OpenWritable,
    /// Run [`WITHOUT_ROWID_SQL`] with the table's name, then report
    /// `WithoutRowidChecked`.
    CheckWithoutRowid,
    /// Run this statement, then report `RowidsLookedUp`.
    LookupRowid(String),
    /// Run this UPDATE statement, then report `Executed`.
    Execute(String),
    /// Stop: the update is refused.
    Fail(DbError),
    /// Stop: the update is done.
    Done,
}

/// An [`UpdateAction`], with its statements as text.
pub enum UpdatePlan {
    OpenWritable,
    CheckWithoutRowid,
    LookupRowid(Seq<char>),
    Execute(Seq<char>),
    Fail(DbError),
    Done,
}

impl View for UpdateAction {
    type V = UpdatePlan;

    open spec fn view(&self) -> UpdatePlan {
        match self {
            UpdateAction::OpenWritable => UpdatePlan::OpenWritable,
            UpdateAction::CheckWithoutRowid => UpdatePlan::CheckWithoutRowid,
            UpdateAction::LookupRowid(s) => UpdatePlan::LookupRowid(s@),
            UpdateAction::Execute(s) => UpdatePlan::Execute(s@),
            UpdateAction::Fail(e) => UpdatePlan::Fail(*e),
            UpdateAction::Done => UpdatePlan::Done,
        }
    }
}

/// The query that tells whether the table named by its parameter `?1` is a
/// `WITHOUT ROWID` table: it returns a row exactly when it is.
pub const WITHOUT_ROWID_SQL: &'static str = "SELECT 1 FROM sqlite_master WHERE type='table' AND name=?1 AND sql LIKE '%WITHOUT ROWID%'";

/// Why a cell update is refused before the database is touched: the new text
/// is over [`MAX_CELL_BYTES`] bytes, or the column does not exist.
pub open spec fn update_precheck(u: CellUpdateView) -> Option<DbError> {
    if byte_len(u.new_value) > MAX_CELL_BYTES {
        Some(DbError::ValueTooLarge)
    } else if u.column_idx >= u.columns.len() {
        Some(DbError::ColumnOutOfRange)
    } else {
        None
    }
}

/// The condition that locates the edited row by its rowid-alias column `k`:
/// `"k" = literal`; refused when the row has no value there or the value is
/// a BLOB.
pub open spec fn key_condition(u: CellUpdateView, k: int) -> Result<Seq<char>, DbError> {
    if k >= u.row.len() {
        Err(DbError::KeyValueMissing)
    } else {
        match literal_of(u.row[k]) {
            Some(lit) => Ok(quoted(u.columns[k].name, '"') + " = "@ + lit),
            None => Err(DbError::BlobLocator),
        }
    }
}

/// The conditions `"column" IS literal` for the first `n` columns whose
/// value in the row exists and is not a BLOB.
pub open spec fn lookup_conditions(columns: Seq<ColumnView>, row: Seq<CellView>, n: nat) -> Seq<
    Seq<char>,
>
    decreases n,
{
    if n == 0 {
        Seq::empty()
    } else {
        let before = lookup_conditions(columns, row, (n - 1) as nat);
        let i = n - 1;
        if i < row.len() && literal_of(row[i]) is Some {
            before.push(quoted(columns[i].name, '"') + " IS "@ + literal_of(row[i])->0)
        } else {
            before
        }
    }
}

/// The statement that looks up the rowids of (at most two) rows of `table`
/// whose values match the edited row in every column where it can; the row
/// is located only when exactly one matches.
pub open spec fn lookup_rowid_statement(
    table: Seq<char>,
    columns: Seq<ColumnView>,
    row: Seq<CellView>,
) -> Seq<char> {
    "SELECT rowid FROM "@ + quoted(table, '"') + " WHERE "@ + joined(
        lookup_conditions(columns, row, columns.len()),
        " AND "@,
    ) + " LIMIT 2"@
}

/// The UPDATE statement that writes the new text, as a string literal, into
/// the edited column of the rows that `condition` selects; refused for a
/// column declared `BLOB` (in any case).
pub open spec fn update_statement(u: CellUpdateView, condition: Seq<char>) -> UpdatePlan {
    let col = u.columns[u.column_idx as int];
    if eq_ignoring_ascii_case(col.declared_type, "blob"@) {
        UpdatePlan::Fail(DbError::BlobColumn)
    } else {
        UpdatePlan::Execute(
            "UPDATE "@ + quoted(u.table, '"') + " SET "@ + quoted(col.name, '"') + " = "@ + quoted(
                u.new_value,
                '\'',
            ) + " WHERE "@ + condition,
        )
    }
}

/// The next step of a cell update after `event`.
///
/// An update opens a writable connection, locates the row (by the rowid-alias
/// column when the table has one, else by the rowid of the only row that
/// matches the edited one, unless the table is a `WITHOUT ROWID` table) and
/// runs the UPDATE. The checks that need no database are made at every step.
pub open spec fn update_plan(u: CellUpdateView, event: UpdateEvent) -> UpdatePlan {
    match event {
        UpdateEvent::Executed => UpdatePlan::Done,
        _ => match update_precheck(u) {
            Some(e) => UpdatePlan::Fail(e),
            None => match event {
                UpdateEvent::Start => UpdatePlan::OpenWritable,
                UpdateEvent::Opened => match first_rowid_alias(u.columns) {
                    Some(k) => match key_condition(u, k) {
                        Ok(c) => update_statement(u, c),
                        Err(e) => UpdatePlan::Fail(e),
                    },
                    None => UpdatePlan::CheckWithoutRowid,
                },
                UpdateEvent::WithoutRowidChecked(without_rowid) => if without_rowid {
                    UpdatePlan::Fail(DbError::WithoutRowid)
                } else {
                    UpdatePlan::LookupRowid(lookup_rowid_statement(u.table, u.columns, u.row))
                },
                UpdateEvent::RowidsLookedUp(rowids) => if rowids@.len() == 1 {
                    update_statement(u, "rowid = "@ + signed_decimal(rowids@[0] as int))
                } else {
                    UpdatePlan::Fail(DbError::RowNotLocated)
                },
                UpdateEvent::Executed => UpdatePlan::Done,
            },
        },
    }
}

/// The statement that looks up the rowid of the edited row.
pub fn lookup_rowid_sql(table: &str, columns: &[ColumnInfo], row: &[CellValue]) -> (sql: String)
    ensures
        sql@ == lookup_rowid_statement(table@, column_views(columns@), cell_views(row@)),
{
    let ghost cols = column_views(columns@);
    let ghost cells = cell_views(row@);
    let mut conds: Vec<String> = Vec::new();
    let n = columns.len();
    let mut i: usize = 0;
    while i < n
        invariant
            n == columns@.len(),
            cols == column_views(columns@),
            cells == cell_views(row@),
            0 <= i <= n,
            conds@.map_values(|p: String| p@) == lookup_conditions(cols, cells, i as nat),
        decreases n - i,
    {
        let ghost before = conds@;
        if i < row.len() {
            match quote_literal(&row[i]) {
                Ok(lit) => {
                    let mut cond = quote_identifier(columns[i].name.as_str());
                    cond.append(" IS ");
                    cond.append(lit.as_str());
                    conds.push(cond);
                    proof {
                        assert(conds@.map_values(|p: String| p@) =~= before.map_values(
                            |p: String| p@,
                        ).push(conds@.last()@));
                    }
                },
                Err(_) => {},
            }
        }
        i = i + 1;
    }
    let mut sql = String::from_str("SELECT rowid FROM ");
    push_quoted(&mut sql, table, '"');
    sql.append(" WHERE ");
    push_joined(&mut sql, &conds, " AND ");
    sql.append(" LIMIT 2");
    sql
}

impl CellUpdate {
    fn precheck(&self) -> (e: Option<DbError>)
        ensures
            e == update_precheck(self@),
    {
        if self.new_value.as_str().len() > MAX_CELL_BYTES {
            Some(DbError::ValueTooLarge)
        } else if self.column_idx >= self.columns.len() {
            Some(DbError::ColumnOutOfRange)
        } else {
            None
        }
    }

    fn statement(&self, condition: &str) -> (plan: UpdateAction)
        requires
            self.column_idx < self.columns@.len(),
        ensures
            plan@ == update_statement(self@, condition@),
    {
        let col = &self.columns[self.column_idx];
        if eq_ignore_ascii_case(col.declared_type.as_str(), "blob") {
            UpdateAction::Fail(DbError::BlobColumn)
        } else {
            let mut sql = String::from_str("UPDATE ");
            push_quoted(&mut sql, self.table.as_str(), '"');
            sql.append(" SET ");
            push_quoted(&mut sql, col.name.as_str(), '"');
            sql.append(" = ");
            push_quoted(&mut sql, self.new_value.as_str(), '\'');
            sql.append(" WHERE ");
            sql.append(condition);
            UpdateAction::Execute(sql)
        }
    }

    /// The next step of the update after `event` (see [`update_plan`]).
    pub fn next(&self, event: UpdateEvent) -> (action: UpdateAction)
        ensures
            action@ == update_plan(self@, event),
    {
        if let UpdateEvent::Executed = event {
            return UpdateAction::Done;
        }
        if let Some(e) = self.precheck() {
            return UpdateAction::Fail(e);
        }
        match event {
            UpdateEvent::Start => UpdateAction::OpenWritable,
            UpdateEvent::Opened => match rowid_column(self.columns.as_slice()) {
                Some(k) => {
                    if k >= self.row.len() {
                        UpdateAction::Fail(DbError::KeyValueMissing)
                    } else {
                        match quote_literal(&self.row[k]) {
                            Ok(lit) => {
                                let mut cond = quote_identifier(self.columns[k].name.as_str());
                                cond.append(" = ");
                                cond.append(lit.as_str());
                                self.statement(cond.as_str())
                            },
                            Err(e) => UpdateAction::Fail(e),
                        }
                    }
                },
                None => UpdateAction::CheckWithoutRowid,
            },
            UpdateEvent::WithoutRowidChecked(without_rowid) => {
                if without_rowid {
                    UpdateAction::Fail(DbError::WithoutRowid)
                } else {
                    UpdateAction::LookupRowid(
                        lookup_rowid_sql(
                            self.table.as_str(),
                            self.columns.as_slice(),
                            self.row.as_slice(),
                        ),
                    )
                }
            },
            UpdateEvent::RowidsLookedUp(rowids) => {
                if rowids.len() == 1 {
                    let mut cond = String::from_str("rowid = ");
                    push_signed_decimal(&mut cond, rowids[0]);
                    self.statement(cond.as_str())
                } else {
                    UpdateAction::Fail(DbError::RowNotLocated)
                }
            },
            UpdateEvent::Executed => UpdateAction::Done,
        }
    }
}


/// Whether an extension is a SQLite one does not depend on the case of its
/// ASCII letters.
pub proof fn lemma_sqlite_extension_ignores_case(a: Seq<char>, b: Seq<char>)
    requires
        eq_ignoring_ascii_case(a, b),
    ensures
        sqlite_extension(a) == sqlite_extension(b),
{
    lemma_eq_ignoring_ascii_case_equivalence(a, b, "db"@);
    lemma_eq_ignoring_ascii_case_equivalence(b, a, "db"@);
    lemma_eq_ignoring_ascii_case_equivalence(a, b, "sqlite"@);
    lemma_eq_ignoring_ascii_case_equivalence(b, a, "sqlite"@);
    lemma_eq_ignoring_ascii_case_equivalence(a, b, "sqlite3"@);
    lemma_eq_ignoring_ascii_case_equivalence(b, a, "sqlite3"@);
}

/// A cell update never writes a value over [`MAX_CELL_BYTES`] bytes, into a
/// column that does not exist, or into a column declared `BLOB`; and it writes
/// the new text as a quoted string literal into the quoted column of the
/// quoted table.
pub proof fn lemma_update_guards(u: CellUpdateView, event: UpdateEvent)
    requires
        update_plan(u, event) is Execute,
    ensures
        byte_len(u.new_value) <= MAX_CELL_BYTES,
        u.column_idx < u.columns.len(),
        !eq_ignoring_ascii_case(u.columns[u.column_idx as int].declared_type, "blob"@),
        exists|condition: Seq<char>|
            update_plan(u, event) == UpdatePlan::Execute(
                "UPDATE "@ + quoted(u.table, '"') + " SET "@ + quoted(
                    u.columns[u.column_idx as int].name,
                    '"',
                ) + " = "@ + quoted(u.new_value, '\'') + " WHERE "@ + condition,
            ),
{
    match event {
        UpdateEvent::Opened => {
            let k = first_rowid_alias(u.columns)->0;
            let c = key_condition(u, k)->Ok_0;
            assert(update_plan(u, event) == update_statement(u, c));
        },
        UpdateEvent::RowidsLookedUp(rowids) => {
            let c = "rowid = "@ + signed_decimal(rowids@[0] as int);
            assert(update_plan(u, event) == update_statement(u, c));
        },
        _ => {},
    }
}

/// A `WITHOUT ROWID` table without a rowid-alias column is never written: the
/// update stops when the check finds it.
pub proof fn lemma_without_rowid_refused(u: CellUpdateView)
    requires
        update_precheck(u) is None,
    ensures
        update_plan(u, UpdateEvent::WithoutRowidChecked(true)) == UpdatePlan::Fail(
            DbError::WithoutRowid,
        ),
{
}


/// How far a cell update has come when an event is reported.
pub open spec fn event_phase(event: UpdateEvent) -> nat {
    match event {
        UpdateEvent::Start => 0,
        UpdateEvent::Opened => 1,
        UpdateEvent::WithoutRowidChecked(_) => 2,
        UpdateEvent::RowidsLookedUp(_) => 3,
        UpdateEvent::Executed => 4,
    }
}

/// How far a cell update will have come when the work a step asks for is
/// reported; nothing for a step that ends the update.
pub open spec fn report_phase(plan: UpdatePlan) -> Option<nat> {
    match plan {
        UpdatePlan::OpenWritable => Some(1),
        UpdatePlan::CheckWithoutRowid => Some(2),
        UpdatePlan::LookupRowid(_) => Some(3),
        UpdatePlan::Execute(_) => Some(4),
        UpdatePlan::Fail(_) | UpdatePlan::Done => None,
    }
}

/// Every step of a cell update either ends it or asks for work whose report
/// comes later in the update, and the report of the UPDATE ends it: an update
/// asks for at most four pieces of work.
pub proof fn lemma_update_moves_forward(u: CellUpdateView, event: UpdateEvent)
    ensures
        report_phase(update_plan(u, event)) matches Some(p) ==> p > event_phase(event),
        event_phase(event) <= 4,
        update_plan(u, UpdateEvent::Executed) == UpdatePlan::Done,
{
}


/// A table without a rowid-alias column is written by rowid only when the
/// lookup found exactly one matching row: with no match, or with two, the
/// update is refused.
pub proof fn lemma_rowid_located_uniquely(u: CellUpdateView, found: Vec<i64>)
    requires
        update_precheck(u) is None,
    ensures
        found@.len() != 1 ==> update_plan(u, UpdateEvent::RowidsLookedUp(found))
            == UpdatePlan::Fail(DbError::RowNotLocated),
        found@.len() == 1 ==> update_plan(u, UpdateEvent::RowidsLookedUp(found)) == update_statement(
            u,
            "rowid = "@ + signed_decimal(found@[0] as int),
        ),
{
}


/// A page of a non-negative limit that fits in a `usize` holds that many
/// rows: the capacity is the limit itself.
pub proof fn lemma_page_capacity_is_limit(limit: i64)
    ensures
        0 <= limit <= usize::MAX ==> page_capacity(limit) == limit,
{
}

/// Reading the `type` value that SQLite writes for a kind gives that kind
/// back, and a `type` value is read as a kind only when it is that kind's
/// name.
pub proof fn lemma_kind_names_round_trip(k: DbObjectKind, name: Seq<char>)
    ensures
        kind_of_name(kind_name(k)) == Some(k),
        kind_of_name(name) == Some(k) ==> name == kind_name(k),
{
    reveal_strlit("table");
    reveal_strlit("view");
    reveal_strlit("index");
    reveal_strlit("trigger");
    assert("table"@[0] == 't' && "view"@[0] == 'v' && "index"@[0] == 'i');
    assert("table"@.len() == 5 && "trigger"@.len() == 7 && "view"@.len() == 4);
    assert("index"@.len() == 5);
    assert("table"@ != "view"@);
    assert("table"@ != "index"@);
    assert("table"@ != "trigger"@);
    assert("view"@ != "index"@);
    assert("view"@ != "trigger"@);
    assert("index"@ != "trigger"@);
}

/// A cell update is refused as a BLOB-column edit only when the edited
/// column is declared `BLOB` (in any case).
pub proof fn lemma_blob_refusal_only_for_blob_columns(u: CellUpdateView, event: UpdateEvent)
    ensures
        update_plan(u, event) == UpdatePlan::Fail(DbError::BlobColumn) ==> u.column_idx
            < u.columns.len() && eq_ignoring_ascii_case(
            u.columns[u.column_idx as int].declared_type,
            "blob"@,
        ),
{
}

/// When the table has a rowid-alias column `k` whose value in the edited row
/// is not a BLOB, and the edited column is not declared `BLOB`, the step
/// after opening writes the new text into the edited column of the row whose
/// key equals the row's key value: `UPDATE "table" SET "column" = 'text'
/// WHERE "key" = literal`.
pub proof fn lemma_keyed_update_executes(u: CellUpdateView, k: int)
    requires
        byte_len(u.new_value) <= MAX_CELL_BYTES,
        u.column_idx < u.columns.len(),
        is_first_rowid_alias(u.columns, k),
        k < u.row.len(),
        !(u.row[k] is Blob),
        !eq_ignoring_ascii_case(u.columns[u.column_idx as int].declared_type, "blob"@),
    ensures
        literal_of(u.row[k]) is Some,
        update_plan(u, UpdateEvent::Opened) == UpdatePlan::Execute(
            "UPDATE "@ + quoted(u.table, '"') + " SET "@ + quoted(
                u.columns[u.column_idx as int].name,
                '"',
            ) + " = "@ + quoted(u.new_value, '\'') + " WHERE "@ + quoted(u.columns[k].name, '"')
                + " = "@ + literal_of(u.row[k])->0,
        ),
{
    let j = choose|j: int| is_first_rowid_alias(u.columns, j);
    assert(j == k) by {
        if j < k {
            assert(!u.columns[j].is_rowid_alias);
        } else if j > k {
            assert(!u.columns[k].is_rowid_alias);
        }
    }
    let lit = literal_of(u.row[k])->0;
    assert(quoted(u.columns[k].name, '"') + " = "@ + lit == quoted(u.columns[k].name, '"') + (
    " = "@ + lit)) by {
        assert((quoted(u.columns[k].name, '"') + " = "@) + lit =~= quoted(u.columns[k].name, '"')
            + " = "@ + lit);
    }
    let pre = "UPDATE "@ + quoted(u.table, '"') + " SET "@ + quoted(
        u.columns[u.column_idx as int].name,
        '"',
    ) + " = "@ + quoted(u.new_value, '\'') + " WHERE "@;
    assert(pre + (quoted(u.columns[k].name, '"') + " = "@ + lit) =~= pre + quoted(
        u.columns[k].name,
        '"',
    ) + " = "@ + lit);
}

/// When the table has no rowid-alias column, the lookup found exactly one row
/// and the edited column is not declared `BLOB`, the update writes the new
/// text into the edited column of the row with that rowid.
pub proof fn lemma_rowid_update_executes(u: CellUpdateView, found: Vec<i64>)
    requires
        byte_len(u.new_value) <= MAX_CELL_BYTES,
        u.column_idx < u.columns.len(),
        found@.len() == 1,
        !eq_ignoring_ascii_case(u.columns[u.column_idx as int].declared_type, "blob"@),
    ensures
        update_plan(u, UpdateEvent::RowidsLookedUp(found)) == UpdatePlan::Execute(
            "UPDATE "@ + quoted(u.table, '"') + " SET "@ + quoted(
                u.columns[u.column_idx as int].name,
                '"',
            ) + " = "@ + quoted(u.new_value, '\'') + " WHERE "@ + "rowid = "@ + signed_decimal(
                found@[0] as int,
            ),
        ),
{
    let pre = "UPDATE "@ + quoted(u.table, '"') + " SET "@ + quoted(
        u.columns[u.column_idx as int].name,
        '"',
    ) + " = "@ + quoted(u.new_value, '\'') + " WHERE "@;
    assert(pre + ("rowid = "@ + signed_decimal(found@[0] as int)) =~= pre + "rowid = "@
        + signed_decimal(found@[0] as int));
}


/// A value read for display keeps everything but a BLOB's tail: a BLOB keeps
/// its first bytes, as many as fit in the preview, and any other value is
/// kept whole.
pub proof fn lemma_cell_from_sql_keeps_prefix(v: CellView, preview: usize)
    ensures
        v is Blob ==> cell_from_sql(v, preview) is Blob && {
            let b = v->Blob_0;
            let c = cell_from_sql(v, preview)->Blob_0;
            &&& c.len() == if b.len() < preview { b.len() } else { preview as nat }
            &&& forall|i: int| 0 <= i < c.len() ==> c[i] == b[i]
        },
        !(v is Blob) ==> cell_from_sql(v, preview) == v,
{
}

} // verus!
