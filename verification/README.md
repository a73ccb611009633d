# duplicate_file_finder

A terminal tool that walks a directory tree and either lists its largest files
or finds byte-identical duplicates and deletes (or, in a dry run, reports) the
extra copies.

The decisions live in `src/`, verified with Verus, as state machines that ask
for file system work and take its outcome back:

- `walk` — which entries of a directory listing are kept, entered, skipped or
  reported;
- `grouping`, `clean`, `dedup`, `compare` — bucketing by size, the pairwise
  scan of a bucket (first 4096 bytes, then the rest in chunks) and the
  deletion of later copies;
- `sorting`, `jobs` — the two jobs, clean and sort, from walk to report;
- `ui`, `app_state` — the screens of the interface and how keys and messages
  change them;
- `text` — every line the report holds;
- `laws` — properties that span several functions.

`app/` is the program around the library: the terminal (crossterm, ratatui),
the worker thread, and the file system calls whose outcomes it hands back.
