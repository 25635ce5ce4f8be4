# server

The favorites and reading-history server of a comic reader, with its
favorite synchronization against the upstream account, written in Verus.

## Layout

- `src/` is the verified library. Every function there carries a contract
  that Verus proves.
  - `text`: trimming, digit ids, number texts.
  - `jm`: the upstream service's lenient JSON model and the favorite records
    it lists.
  - `application::favorite_sync`: the synchronization record and every step
    of its state machine. Each step is a function from the record (and what a
    task read) to the next record, and the module's laws are proved there:
    tasks of an older epoch write nothing, a restart leaves no task running,
    a check settles exactly when both sides hold the same ids.
  - `application::favorite_sync::snapshot`: reading all upstream favorites
    page by page.
  - `application::favorite_sync::repository`: the stored form of the record,
    with the proof that a saved record loads back.
  - `application::favorite`, `application::history`, `api`: favorites, reading
    history and the request checks of the HTTP interface.
  - `clock`, `json_text`: the calls into `chrono` and `serde_json`, with the
    contracts the library relies on.
- `app/` is ordinary Rust around the library: SQLite storage, the
  asynchronous synchronization runtime that carries out each step the library
  decides, the axum handlers, and serde copies of the library's types.
- `tests/` runs the library on concrete values.
