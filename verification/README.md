# minerva_worker

The Minerva DPN worker fetches file jobs from the archive's job server,
downloads each file, uploads it in chunks to the upload server and reports the
outcome. This crate is its verified core, written in Verus:

- `src/net/` — reading the login token from the OAuth callback, percent
  decoding, the request headers, the judgement of every answer (upgrade
  required, expired token, retried statuses, the finalize race of reports),
  the upload plan (chunk bounds and SHA-256), the sanitized download paths,
  and the update check.
- `src/worker/` — settings, counters and shared state; the decisions of the
  job producer and the life of one job as a state machine that hands back
  the effects to carry out.
- `src/ui/` — the messages sent to the window, the list of active transfers,
  the window layout, and what each message does to the window.
- `src/text.rs` — character-level helpers over vstd's UTF-8 model.

`app/` is the program around it: the Win32 window, the tokio runtime, the
HTTP client, files and timers. It performs what the library decides.
`tests/` exercises the library on concrete values.
