# gmsv_serverstat

A Garry's Mod server module that hands system and process statistics
(CPU usage, memory, CPU counts) to Lua.

- `src/` is the library, verified with Verus:
  - `lua.rs`: a model of the Lua stack, tables and globals, and the list of
    C API calls (`LuaOp`) whose meaning `run` gives on it;
  - `export.rs`: the responses and the calls that push each of them, with
    the laws that say which table each one builds;
  - `realtime.rs`: the `serverstat.realtime` interface;
  - `stats.rs`: the readings taken from `sysinfo`;
  - `lib.rs`: the calls with which the module opens.
- `app/` performs the listed calls through the Lua C API of the server
  (loaded with `libloading`), keeps the `sysinfo` state and caches, and
  computes the floating-point readings.
- `tests/` runs the library on concrete values.
