# eng

The engineering catalog library: the vocabulary and routing of the
compressible-flow calculator devices, station workflows with provenance, the
JSON invoke protocol and its metadata reads, the layered architecture
description, the unified catalog, and the text of the generated handbook and
Python/Excel bindings. Verus proves the contract of every function in `src/`;
the one standard-library string call it has no specification for,
`String::push`, is wrapped in `src/text.rs`, whose contract it takes as given.

- `src/devices/` — kind parsers, solve routes and generation metadata per device.
  The device catalog (`generation_specs`) has five places. Oblique shock and
  Fanno flow hold the fourth and fifth. The first three belong to pipe loss,
  isentropic flow and normal shock, which have no generation metadata of their
  own; Rayleigh flow, nozzle flow and conical shock stand in for them there, in
  that order. Everything derived from the catalog follows this order: the
  documentation entries, the device pages and links, the device metadata reads,
  and the device bindings of the manifest.
- `src/solve/` — stations, quantity records and their provenance; study spill
  layouts; root-scan reports.
- `src/bindings.rs`, `src/invoke.rs`, `src/meta.rs` — the protocol catalog,
  request routing, and the decisions of the metadata handlers.
- `src/docs/` — naming helpers, binding help text, generated modules, the
  handbook's pages and indexes, and the unified catalog with its links.
- `src/architecture.rs` — the architecture layers as data.
- `src/cli.rs` — command-line decisions of the `eng` program.
- `app/` — the `eng` program: file output, JSON, and the floating-point device
  and equation work, which call crates outside this library.
- `tests/` — tests of the library on concrete values.
