# clickup

A client library for the ClickUp API, with the decisions of its command-line
tool and desktop task view, specified and proved with Verus.

## Layout

- `src/` — the verified library.
  - `text.rs`: string helpers (trimming, prefixes, replacement, decimal
    formatting) with their specifications and lemmas.
  - `json.rs`: the JSON model that task fields are read from.
  - `auth.rs`: credentials, the `Authorization` header, configuration and the
    environment variables that supply them.
  - `api_url.rs`: URLs, parsed and joined by the `url` crate.
  - `http.rs`: header values and the HTTP client made by `reqwest`, each
    held together with the texts it was made from.
  - `client.rs`: client construction, request URLs and response checks.
  - `tasks.rs`: task references, request parameters and paths, the task data
    model, and the steps of tracking a task with its subtasks.
  - `focus.rs`: the task focus view of the desktop app (custom fields,
    assignees, location path, subtasks).
  - `cli.rs`: the command-line tool's decisions and its text report.
- `tests/` — tests of the library, run against the real outside crates.
- `app/` — the program: argument parsing, environment, HTTP requests, JSON
  decoding, file installation and printing.

Sending requests is the caller's part: the library builds each request's URL
and checks each response's status and body.
