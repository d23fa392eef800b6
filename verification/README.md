# packetgraph

A packet graph: bricks (nop, firewall, tap) registered by name in a graph,
linked to one another, and polled, on top of the packetgraph engine.

- `src/` is the library, verified with Verus. It holds every decision:
  the table of bricks by name (no name twice), which requests on the graph
  are refused and with which comment, what is handed to the engine
  otherwise, how an engine report becomes a `Result`, which bricks can be
  polled, and when the engine is started and with which parameters.
- `app/` makes the engine's calls through `packetgraph_sys` and hands the
  outcome of each back to the library. Bricks are known to the library by
  integer handles.
- `tests/` drives the library with the outcomes that the engine gives.
