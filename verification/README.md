# evox2_control

Control of the embedded controller (EC) of the GMKtec EVO-X2 / Sixunited AXB35
board: APU power mode, the three fans (auto, fixed level or temperature
curve), temperatures, saved settings and the command-line tool.

The library in `src/` is written in Verus and proved: every public function
states its result in `requires` / `ensures`, and the laws that tie functions
together are public proof functions (`lemma_*`).

- `ec_io`, `ec`: the ACPI EC port protocol, the register map, every controller
  operation, and the curve-fan monitor. Only the ACPI EC ports (0x62 / 0x66)
  are ever touched. Where the backend is the in-process EC, the contracts say
  exactly what it holds and what crossed its ports after each command.
- `curve`: fan-curve hysteresis, derived ramp-down curves, temperature
  smoothing.
- `config`, `fan`, `thermal`, `alert`, `i18n`: settings, names, temperature
  sources, the over-temperature alert, and the two UI languages.
- `session`, `cli`, `diagnose`: what the program does with the controller and
  the settings, the command-line plans and their output, the diagnostics
  report.
- `pawnio`, `platform`, `harden`, `logger`, `tray`, `ui`, `edit`: the PawnIO
  request format, Windows-facing decisions (logon task, registry values, DLL
  search paths, theme colours), log lines and rotation, the tray menu, and the
  window's non-drawing state.

`app/` is the executable: argument parsing, the egui window and the tray icon,
files, the Windows API calls, the PawnIO device and the curve monitor thread.
`tests/` exercises the library.
