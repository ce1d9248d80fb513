# apache-datasketches

The configuration, validation and result-shaping layer of Rust bindings for
Apache DataSketches (HLL, Theta, CPC and Tuple sketch families), verified with
Verus.

The sketches themselves are computed by the DataSketches C++ engine, which
the library is handed as closures (its constructors and its update, merge and
result calls). For each decision of the Rust side of the bindings, the
library's contracts state what is decided, and that an accepted input is
handed on to exactly the engine call it was given; Verus proves them:

- `error`: the shared `SketchError`, its rendering, and the mapping of an
  engine failure to the right variant; an intersection with no update has no
  result.
- `cpc`, `theta`, `tuple`, `tuple::generic`: builders with their defaults,
  which hand exactly the configured values to the engine constructor they
  are given; `hll`: the per-bucket representation.
- `tuple`: the ArrayOfDoubles width rules (never `0`, fixed for the
  sketch's lifetime, every update's array and every set operation's operands
  checked against it before the engine sees them) and the grouping of
  retained entries' flat value arrays.
- `tuple::generic`: the summary trait users implement, and the reusable
  scratch slot of generic updates.
- `text`: decimal rendering of counts for error messages.

`app/` holds the sketch handles, which own the engine's objects through the
`cxx` bridge and call the library for every decision.
