# vpaw

A library that serves the Active Worlds SDK interface on top of the Virtual
Paradise SDK. `src/` holds the verified logic; `app/` holds the exported C
entry points, the process-wide state, and the calls into the SDK bindings.

- `rc`: translation of Virtual Paradise return codes into Active Worlds ones.
- `query`: cells, sectors, the cells to query for a sector, live-update
  rectangles and per-sector sequence numbers.
- `keyed`: the association table behind the stores below.
- `attributes`: attribute values, the `Attrib` conversions and the
  per-instance attribute buffer; `attributes::mapping` says where each
  attribute is read from and written to.
- `instance`, `globals`: the state kept per instance and library-wide.
- `hooks`: which Virtual Paradise callback or event serves each Active Worlds
  callback and event, and the registry of the handlers set for them, which
  keeps every instance's installed hooks in step with the handlers.
- `login`: the citizen name of a citizen number in the citizens file.
- `session`: the decisions of the entry points that connect, whisper and wait.
- `sdk`: the SDK identifiers these decisions depend on.
