# RP2350 board logic, verified

The register-level logic of a small RP2350 (RISC-V) firmware: crystal oscillator
and PLL bring-up, clock switching, the frequency counter, timer alarms, trap
classification, LED blink codes, and a USB CDC device (descriptors, the dual-port
RAM layout, and the control endpoint's request handling).

- `src/` is the library. Each routine that touches hardware returns a register
  program (`common::RegStep`): the writes to perform and the conditions to poll
  or require, in order. Routines that read hardware first take the values read as
  arguments. Contracts state the programs and results exactly.
- `app/` is the firmware around it: bus accesses, CSR instructions, trap entry,
  start-up, and the loops that perform the library's programs and decisions.
- `tests/` runs the library on concrete values.
