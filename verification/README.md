# tiger

A sprite sheet editor's core: sheets of frames, animations and hitboxes,
documents with undo and redo, the set of open documents, the commands that
a user interface issues, keyboard shortcuts, selections, the texture cache's
bookkeeping and the data that an export writes out. Every function of the
library carries a contract; Verus proves each of them except six small
wrappers around `std` and `pathdiff` (`sorted_names`, `diff_paths`,
`path_join`, `path_pop`, `sorted_paths`, `same_path`), whose contracts are
trusted and say what those calls return, mostly by naming it.

Layout:

- `src/sheet.rs`: frames, animations, hitboxes and export settings.
- `src/document.rs`, `src/editing.rs`, `src/hitbox_editing.rs`,
  `src/selection_editing.rs`, `src/export_editing.rs`,
  `src/document_commands.rs`: one document, its editing operations and the
  command dispatcher that records history.
- `src/app_state.rs`: the open documents, focus, errors and exiting.
- `src/command.rs`, `src/command_buffer.rs`, `src/shortcuts.rs`,
  `src/transient.rs`: commands and how they are issued.
- `src/multi_selection.rs`: selections of several items made by clicks
  with shift and control.
- `src/geometry.rs`, `src/export.rs`, `src/texture_cache.rs`,
  `src/file_watching.rs`: bounding boxes, export data, textures and the
  files to watch.
- `src/laws.rs`: properties that span several operations.
- `app/main.rs`: a command-line front end that opens, checks and saves
  sheet files; `app/float_logic.rs` holds what a user interface computes
  in floating point before it issues a command.
