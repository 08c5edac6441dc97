# napture_lua

The scripting layer of a small GTK web browser, with its rules verified by Verus.

- `src/` — the verified library:
  - `text`: UTF-8 decoding of script strings, decimal notation of integers;
  - `problems`: the problem log and its line format;
  - `tags`: finding the first page tag that holds a class;
  - `elements`: the methods of an element handle, which elements carry them
    out, and the warning for each one they decline;
  - `printing`: the line that `print` writes;
  - `fetch`: from `fetch` parameters to a request, and from its outcome to
    the script's reply;
  - `script`: how a script run ends.
- `app/` — the host: the Lua runtime (mlua), the GTK widgets, the HTTP
  client (reqwest), JSON values (serde_json) and the process-wide log.
- `tests/` — tests of the library on concrete values.
