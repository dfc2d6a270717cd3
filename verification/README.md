# winapi_mon

A monitor for Windows API calls, made of two parts.

- `src/` is the verified library: the table of hookable functions and the
  modules that export them, the text encodings handed to the Windows API
  (NUL-terminated UTF-16 module names, C-string symbol names), the state
  machine that looks up a function's address, the state machine that installs
  a hook (look up, make the detour, enable it when asked, store it once), the
  decisions of the DLL entry point, and the setup it runs: the hooks in
  order, stopping at the first failure.
- `app/` is the Windows side: it makes the `GetModuleHandleW`,
  `GetProcAddress` and detour calls that the state machines ask for, holds the
  detours, defines the logging hook procedures, and the `DllMain` entry point.
  It builds only for Windows targets.
