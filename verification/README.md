# slogger

A logbook for amateur radio operators: QSO entry with dupe checks, ADIF
import and export, DXCC and WPX standing, a DX spot feed with
needed/worked marks, rig, SO2R and keyer control decisions, and the
confirmation services (LoTW, eQSL, Club Log, QRZ, HRDLog).

The library in `src/` is written in Verus. Each public function states what
it returns or changes in `requires`/`ensures`, over spec functions and views,
and Verus proves the code against it. Properties that relate several
functions (an exported log reads back as written, importing again what the log
already holds stores nothing, a selection toggled twice is unchanged, and so on) stand as
public proof functions whose names begin with `law_`.

Calls into `chrono`, `uuid`, `urlencoding` and a few std functions stand
behind small `#[verifier::external_body]` wrappers, each with a doc comment
that says what its contract claims of the outside code.

- `src/` — the verified library, one module per concern (`adif`,
  `adif_round_trip`, `wpx`, `spots`, `entry`, `service`, `sync`, …).
- `tests/` — ordinary Rust tests of the library.
- `app/` — the program around it: configuration files, the SQLite store,
  HTTP calls to the confirmation services and the device links.
