# sqlite_viewer

The verified core of a SQLite database viewer, with the search options and
preview panes that sit beside it in the editor.

- `src/db.rs`: recognising SQLite files, the objects and columns of a
  database, cell values, the SQL that reads a page and edits a cell, and the
  steps of a cell update.
- `src/viewer.rs`: the viewer's state and its transitions (listing objects,
  paging, editing a cell), each returning the database work to run.
- `src/search.rs`: search options as flags, and the query they build.
- `src/office.rs`, `src/tabular.rs`: spreadsheet layout and the tabular
  preview's settings.
- `src/text.rs`: decimal notation, quoting and comparison of text.
- `app/`: the database access through rusqlite and the editor views that
  render the library's state.
