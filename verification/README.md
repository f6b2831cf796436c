# e7

Epic Seven Secret Shop auto-refresher and penguin altar buyer over adb,
with its decision logic verified by Verus.

- `src/` is the verified library:
  - `adb`: the argument lists of every adb invocation, the parser of
    `adb devices` output, the choice of a device, the retry policy.
  - `shop`: tap targets, tap jitter, and the refresh-and-buy loop as a state
    machine (`Runner::step`), with its laws (dry runs never touch the screen,
    refreshes stay within budget, the stop flag is honoured, items bought on
    a page are not searched again, each purchase is recorded once).
  - `altar`: the penguin purchase loop as a state machine; a purchase is
    never repeated while its reward popup is awaited.
  - `display`: the `wm size` override guard, undone exactly once.
  - `history`: the CSV rows of the purchase history.
  - `cli`: refreshes from a skystone budget.
  - `matcher`: screen geometry and screenshot decoding.
  - `item`, `text`: item tables; lines, trimming and decimals over chars.
- `app/` is the program: argument parsing, running adb, template matching
  (floating point), the history file, and the loops that perform the actions
  the state machines ask for.
- `tests/` exercises the library on concrete values.

Template images are read from `--templates-dir`, or from `assets/` next to
the executable: `cov.png`, `mys.png`, `fb.png`, `refresh.png`, and for the
altar `altar_buy.png`, `altar_max.png`, `altar_close.png`.
