# driftguard

A web monitor: it keeps a list of URLs, checks pages for their title,
description and keywords, link and image counts and content hash, and serves
the results over a small REST API and a command line.

- `src/` is the verified library (Verus): page findings (`detector`), request
  routing and answers (`api`), monitors and their stored rows (`db`), settings
  (`config`), command-line text (`cli`), capture markers (`screenshot`) and the
  text operations they rest on (`text`). `ident` holds the two calls that bring
  in randomness and the clock.
- `app/` is the program around it: argument parsing, the SQLite store, the HTTP
  server and file writing.
- `tests/` runs the library on concrete values.
