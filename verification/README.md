# egui_charts

The core of a financial charting library, written in Verus. The functions in
`src/` carry `requires`/`ensures` contracts that Verus proves, except the
small trusted wrappers (marked `#[verifier::external_body]`) through which the
library calls chrono and a few std functions; their doc comments say what is
assumed of each call.

## Layout

- `src/model` -- chart styles and types, timeframes and resolutions, symbol
  metadata, session breaks (daily at a configured UTC time, weekly after a
  configured weekday, monthly, and composite providers; chrono behind trusted
  wrappers), date ranges, colours and the enumerations of the chart
  transformations (Renko, Kagi, line break, point & figure, TPO, footprint),
  the line-break reversal rule and the clamping of the visible bar range.
- `src/scales` -- price scale modes and the left/right series assignments,
  price display modes, price and time label formatting, and the time-axis
  tick marks: boundary classification, candidate generation, reduction to
  the heaviest marks and mapping of marks to bars.
- `src/scripting` -- the Pine-Script-like lexer and recursive-descent parser,
  each specified by a spec-level counterpart that the executable code is
  proved to follow.
- `src/text.rs` -- character-level string helpers shared by the above.
- `app/` -- the floating-point side (OHLCV bars and their CSV/JSON I/O, the
  chart transformations, price scales and marks, price formatting of `f64`
  values, annotations, colours as `egui::Color32`), built on the library's
  types and rules.
- `tests/` -- tests run against the compiled library.

Public proof functions state the library's laws, for example that a
timeframe's label parses back, as `from_str` reads it, to a timeframe of the
same length (to itself unless the label is that of a preset), that every
resolution name but "3" and "120" names a timeframe of the same length, that
reducing tick marks keeps the heaviest ones in time order, and that a series
reads back the price scale it was last assigned to. They live in the public
modules next to the functions they speak of (`model::timeframe`,
`model::chart_type`, `scales::timescale_marks`, `scales::dual_pricescale`, ...).

## Representation choices

- Instants are `i64` milliseconds since the Unix epoch (UTC); the clock is
  read through `std::time::SystemTime`, and functions that read it return
  `None` when it lies before 1970 or outside chrono's range.
- Number tokens and series offsets of the script language keep their source
  text; the interpreter that would read them as `f64` is not part of this
  crate.
- The standard tick-mark weights are functions (`TickMarkWeight::year()`,
  ...), not associated constants.
- Types that would implement `Display` offer a `to_string` method.
- The series-to-scale assignments of the two price axes are a `Vec` of
  (series, scale) pairs whose series names are unique, viewed as a `Map`.
  With a `String` key, vstd's `HashMap` specification does not let Verus
  prove even the length after one insertion, so the map is kept as a vector
  with uniqueness as its invariant; the listing order of the assigned series
  is left open, as a hash map's would be.
- ASCII characters of script identifiers are classified in verified code
  (letters `A`-`Z`, `a`-`z`, digits `0`-`9`), and the parsers lower-case
  ASCII text with `str::to_ascii_lowercase`; other characters and text go
  through `char::is_alphabetic`, `char::is_alphanumeric` and
  `str::to_lowercase`.

## Not included

- The script interpreter (runtime, built-in functions, strategy execution
  and the indicator wrapper): its values are `f64`, so it cannot stand in
  `src/`, and it is too large for `app/`.
- The chart state beyond its visible-range clamping, and the timezone-aware
  time formatter: the time scale and timezone configuration they build on are
  not part of this crate.
- serde support on the library's types: a serde derive cannot stand on a
  verified type; `app/` derives serde only on its own types (bars, quotes,
  annotations, chart-style parameters).
