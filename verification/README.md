# tigershark3

A command-line tracker of 3D asset versions, stored in SQLite.

`tigershark3 -c {insert|source|delete|latest|approve|purge} -a '{"name":"my_asset","location":"my_location",...}'`

Layout:

- `src/` — the library, verified with Verus:
  - `frame_num` masks frame numbers in file paths (`file.1234.ext` → `file.####.ext`);
  - `parse_args` holds the commands and the JSON keys each of them needs;
  - `assetdef` holds assets, versions, and how a database row is read into them;
  - `errors` holds the outcome of a command, its messages and exit code;
  - `utils` holds each command as a session: from each database answer to the next query or to the outcome;
  - `text` holds decimal numbers, splitting, and the quoted form of strings.
- `app/` — the program: command line (clap), JSON (serde), SQLite (sqlx), printing.
- `tests/` — tests of the library.
