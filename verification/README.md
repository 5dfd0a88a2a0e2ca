# RecordScreen

A Windows desktop screen recorder and screenshot tool that drives FFmpeg,
with a loopback-only control API for local agents and an MCP stdio bridge.

- `src/` is the verified library (Verus): the window list and its order,
  the API's admission rules (loopback Host/Origin, bearer token) and the
  decisions of each handler, the recorder state and its transitions, the
  MCP method handling and tool planning, settings validation, token
  generation and reuse, FFmpeg arguments and outcome reading, and the
  desktop window's messages, controls and settings form.
- `app/` is the program around it: the egui window, the axum server, the
  MCP stdio loop, file and process I/O, and the Win32 window enumeration.
- `tests/` exercises the library on concrete values.
