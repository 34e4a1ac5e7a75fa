# usdt

Statically-defined DTrace probes for Rust, with the logic behind them verified
by Verus.

## Layout

- `src/` — the verified library:
  - `grammar`, `parser`, `dtrace`, `types`: reading D provider definitions;
  - `definition`, `attr`, `builder`: providers and probes as the probe macros
    hold them, their D source, and the names of generated items;
  - `readback`: the proof that the D source of a provider reads back as that
    provider;
  - `dof`, `dof_raw`, `ser`, `des`, `roundtrip`: the DTrace Object Format,
    its serialization and deserialization, and the proof that reading back a
    serialized section gives it again;
  - `record`, `asm_records`, `stapsdt`, `registration`: the probe records that
    the probe macros emit, how a process reads them back (at most once), and
    what the kernel is told;
  - `header`: the C header that `dtrace -h` generates;
  - `fmt`, `object`: finding DOF in object files and formatting it;
  - `text`, `bytes`: strings, and integers as bytes in either byte order (the machine's order comes from `native_order`).
- `tests/` — tests of the library.
- `app/` — the `dusty` command, file and device I/O, JSON output, and the
  generation of Rust tokens for probe macros.
