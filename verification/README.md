# home_cloud

The decisions and computations of a personal cloud back end — journals of
income and outlay, reminder plans and their calendar, uploads of files and
pictures, accounts, sessions and signed tokens — written in Verus and proved
against their contracts.

- `src/` is the verified library. Each service function takes what the
  databases, the clock and the request gave and returns the rows to write,
  the files to store or remove, and the response; nothing in it does I/O.
  - `service/financial_service.rs`: journals and their lines, with
    `rust_decimal` arithmetic; the laws of booking and taking out lines,
    and that adding, changing and deleting a line keep a journal's income
    and outlay equal to the sums of its lines.
  - `service/system_service.rs`: accounts, sessions, plans (next runs by
    cycle) and the month calendar of archived plans.
  - `service/oss_service.rs`, `service/file_service.rs`: uploads as a
    sequence of form fields, and the records they make.
  - `entity/vo/jwt.rs`, `claims.rs`: HS256 tokens over a canonical JSON text
    of the claims, with a proof that the text determines the claims; claims
    in any other JSON layout are read with serde_json.
  - `util/`: dates (with chrono), decimal amounts, text helpers, paging, and
    the commit-or-roll-back decisions of a transaction's writes.
- `tests/` runs the library on concrete values.
- `app/` is a small command-line front: JSON in, the library's decision,
  files written, JSON out. It runs the loop over an upload form's fields,
  handing each to the step the library decides.
