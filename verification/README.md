# code_share

The verified core of a small code editor.

- `src/lines.rs`: the line-number column shown beside the text (digit
  counting, right-aligned numbers, line counting as `str::lines` does).
- `src/search.rs`: the find dialog's search (non-overlapping byte offsets of
  a query in the text) and its count line.
- `src/editor.rs`: the editor window's state machine: menu commands and
  shortcuts, the "File Not Saved" dialog, file operations and their
  outcomes, error and status messages.
- `src/frame.rs`: a model of one frame of the window, composing the state
  machine's steps in the order `app/` calls them, with the laws proved of
  that model (nothing checks that `app/` follows it).
- `src/text.rs`: string helpers.
- `app/`: the egui/eframe window that drives the state machine and performs
  the file operations; it also stores the editor state between runs.
