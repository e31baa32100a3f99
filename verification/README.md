# onehistory

The verified core of 1History, a tool that backs up browser history into a
single local SQLite file and shows it through a web UI.

- `src/` is the library, checked by Verus:
  - `text` — decimal rendering of counts;
  - `types` — the data exchanged with the database layer and the web API;
  - `progress` — `LogCollector`, which logs a `[path] n/total` line every 500
    rows and at the total;
  - `backup` — `BackupRun`, the backup procedure as a state machine: read each
    history file (retrying from a temporary copy), write its rows unless this
    is a dry run, count and log the outcome; with its laws (dry runs add
    up, terminal and web runs ask for the same work, ...);
  - `web` — time ranges of the pages, backup jobs (`BackupJobState`, whose
    status and summary change together, once), answers to failed requests
    and content types of static files; with their laws.
- `app/` performs what the library decides: it reads history files, writes
  the database, drives `BackupRun`, shows the progress bar and serves HTTP.
  The database, the history readers and the calendar helpers are reached
  through the traits in `app/host.rs`.
- `tests/` runs the library on concrete values.
