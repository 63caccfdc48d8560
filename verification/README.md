# rd_fly

A fly controller for early Minecraft builds (rd-132211, rd-132328,
rd-160052), with its decision logic verified in Verus.

- `src/` — the verified library: key edge detection (`fly_hack::keybinds`),
  the double-tap detector, fly state machine and per-tick memory actions
  (`fly_hack::fly_logic`), the readability walk over memory regions
  (`process_mem`), the search for the running build and its height
  addresses (`versions`, `find_y_coord_addresses` in the crate root), and
  the lookup of a process by name (`injector`).
- `tests/` — tests of the library on concrete values.
- `app/` — the DLL and the injector: system calls, memory reads and writes
  (floating point), the overlay, and the main loop that feeds the library.
