# superpower

A terminal emulator's core, verified with Verus, and the window application around it.

## Layout

- `src/` — the verified library:
  - `cell`, `cursor`, `damage`, `grid` — cells and colours, the cursor, per-row redraw
    tracking, and the screen with its scrollback history, scroll region and view offset;
  - `terminal`, `palette` — the terminal state driven by decoded control functions (printing,
    C0 controls, CSI, SGR, OSC), private modes, the alternate screen and input-method text;
  - `selection`, `session` — selection by character, word and line, and the mouse state of a tab;
  - `search` — literal and regular-expression search over history and screen;
  - `input`, `encode`, `text` — key, paste and mouse-report encoding, UTF-8 and text helpers;
  - `shortcuts`, `config`, `ui`, `fonts`, `pty` — key bindings, configuration defaults and colour
    parsing, themes and chrome text, font-name matching and font-chain selection, shell output
    events;
  - `laws` — properties relating several operations, stated and proved as proof functions.
- `tests/` — tests of the library, including a `vte`-driven parser harness.
- `app/` — the window program: event loop (winit), GPU renderer (wgpu, fontdue, DirectWrite on
  Windows), pseudo-terminal sessions (portable-pty), clipboard (arboard) and TOML configuration.

Every function of `src/` carries a contract that Verus checks; calls into `std` and `regex`
that the library makes go through a few trusted wrappers whose contracts are documented where
they are declared.
