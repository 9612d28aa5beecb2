# ac_trainer

A verified library for an external memory tool for the AssaultCube client
(`ac_client.exe`), with a thin Windows front end.

- `src/` (Verus): NUL-terminated name buffers (`cstr`), finding a process or
  module by name in a snapshot (`snapshot`), pointer chains as a state machine
  that asks for one read at a time (`chain`), the game's memory layout and the
  per-tick plan of reads and writes (`trainer`), and the attach decision of the
  injected library (`attach`).
- `app/`: the Win32 calls (ToolHelp snapshots, `ReadProcessMemory`,
  `WriteProcessMemory`, `GetKeyState`, `DllMain`), which feed their results to
  the library.
