# x9_transfer

Streams every file of a source tree (typically an SMB share) to a destination
disk, records each file in a SQLite queue table, and shows progress in a
terminal dashboard.

- `src/` is the verified library (Verus):
  - `events`: the messages sent to the dashboard;
  - `dashboard`: how the dashboard reacts to each message, and when the
    program stops;
  - `transfer`: the per-file workflow (skip, register, copy, record the
    outcome), copy progress, and the notes a run sends;
  - `paths`: destination paths and the database directory;
  - `text`: prefix, search, concatenation and decimal helpers;
  - `laws`: properties proved across these functions.
- `app/` is the program: terminal, key and Ctrl+C handling, the directory
  walk, the file copies and the SQLite calls, driven by the library.
