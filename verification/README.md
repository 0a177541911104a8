# chord

The core of a desktop front end for yt-dlp, verified with Verus.

`src/` is the library. It holds what the application decides and computes:

- `output`, `ytdlp`: the grammar of yt-dlp's output lines, the status a line
  reports, how a run's reports are completed and throttled, and the error a
  failed run stands for;
- `state`: download tasks, the transition rule between their statuses, the task
  table with its invariant (distinct ids), playlist items, persistence and restore;
- `downloads`: request validation, admission into the queue, pause, cancel,
  failure and completion statuses, workspace cleanup, the cookie check verdict;
- `args`: the yt-dlp command lines;
- `config`: settings, their defaults and their repair;
- `deps`: the external tools: download addresses, installation plans, version
  checks, archive entries;
- `archive`: which entries of the downloaded zip and tar.xz archives hold the tools;
- `install`: claiming an installation, and the course of one: which components
  are fetched, in which order, and the state each is reported in;
- `logs`: log rotation, log lines and schema migration;
- `error`, `text`: errors and their messages, text helpers.

Progress is counted in hundredths of a percent.

`app/` is the Tauri application around it: commands, processes, files, network
and the database. `tests/` exercise the library on concrete values.
