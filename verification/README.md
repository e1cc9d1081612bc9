# frper

frper is a desktop client for frpc: it keeps the client settings and the
proxies in a SQLite database, writes the `frpc.ini` that frpc reads, runs
frpc and shows its log in a Sciter user interface.

- `src/` is the verified library (Verus): the configuration file built from
  the settings tables (`service`, `types`), the request routes (`routes`),
  the replies (`response`), the parameters and outcomes of the table writes
  (`settings`), the log records (`logger`) and the version list read from
  the package manifest (`service`).
- `app/` is the program around it: the window, the database, the frpc
  process, the logger and the JSON forms of the library's types.
- `tests/` runs the library on concrete values.
