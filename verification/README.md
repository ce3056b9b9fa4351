# speculare_server

The verified core of the Speculare monitoring server, written in Verus.

- `src/` is the library. Every function of it is verified but four small
  trusted wrappers, whose contracts Verus takes on trust: `ids::parse_uuid`
  (uuid's `Uuid::parse_str`), `alerts::eval_boolean` (evalexpr's
  `eval_boolean`), `oauth::random_alphanumeric` (a draw from rand's
  `Alphanumeric`) and `text::push_char` (std's `String::push`). The modules:
  - `errors`, `reply`: the errors of the API and the answers they become;
  - `api`, `counts`, `granularity`: paging parameters, counts and the
    granularity of the time buckets that a metrics query asks for;
  - `ingest`: the host, CPU-frequency and disk rows of a `POST /speculare`
    report, and the disk rows of a batch of posted host reports;
  - `alerts`, `query`: the trial of an alert's thresholds and the SQL query
    built from its lookup;
  - `oauth`: the login state and the checks of the OAuth callback;
  - `auth`: the decisions of the middlewares that guard the routes, each a
    state machine driven by `app/`, with the laws that only owners pass;
  - `ids`, `text`: UUID parsing and the text helpers the rest relies on.
- `tests/` runs the library on concrete values.
- `app/` is the actix-web server around it: configuration, database access,
  routes and the drivers of the middlewares.
