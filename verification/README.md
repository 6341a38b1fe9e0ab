# epoch

Epoch is a personal time tracker: a command-line client (`epoch start`,
`epoch stop "description"`, `epoch status`, `epoch log`, `epoch delete <id>`,
`epoch edit <id> --desc "text"`) talking to an HTTP server that keeps the
entries in Postgres, behind a static API key.

- `src/` is the verified library:
  - `time`: timestamps (leap seconds included), the whole seconds between
    two of them, and how durations and clock times are printed, with the
    laws that an ordered pair never prints a negative duration and that
    shifting both moments leaves the duration unchanged;
  - `text`: decimal digits;
  - `api`: the request and response bodies;
  - `routes`: the server's handlers, as step functions from the reply to the
    last database query to the next query or the answer;
  - `store`: the `entries` table as the queries see it (each query one
    atomic statement), and the laws of the server: at most one running
    timer through any interleaving of requests, a start refused while one
    runs, what a status and a stop report after a start, today's list,
    deletes and edits;
  - `auth`: the bearer-token check and the header the client sends;
  - `settings`: the server's start-up settings;
  - `cli`: argument parsing, the request of each command, and everything the
    client prints.
- `app/` is the rest: the axum server, the sqlx queries, the reqwest client,
  configuration files and JSON. A unique index on running entries lets the
  database itself refuse a second running timer, and a start is one
  conditional insert. Each database session runs in UTC, the time zone in
  which the entry list's "today" is counted. The one program is the server when invoked as
  `epoch-server`, the client otherwise.
- `tests/` exercises the library on concrete values.
