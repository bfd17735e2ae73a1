# team_players

The record logic of a small HTTP service that keeps teams, players, matches
and match scores in one key-value table.

- `src/` is the verified library: the records (`models`), the table items
  they are stored as (`item`, `ddb`), reading records back out of items
  (`records`, `utils`), fresh ULID keys (`ids`), what each request handler
  decides and answers (`api`), and the properties that hold across them
  (`laws`).
- `app/` is the server: it receives the requests, runs the table calls the
  library describes, and sends the library's answers back as JSON.
- `tests/` runs the library on concrete values.
