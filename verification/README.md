# Game Boy emulator core, verified

The core of a Game Boy (DMG) emulator whose behaviour is stated in Verus contracts and
proved: the CPU and its instruction decoding, the interrupt logic, the system bus that
wires the timer, picture unit, joypad, serial port and audio registers to memory (and a
simpler flat memory bus), the cartridge bank controllers and save files, the timer, the joypad, the serial port, the
picture processing unit (modes, background, window and sprites), the OAM and VRAM DMA
registers, the debugger's decisions and the emulator loop's decisions.

Layout:

- `src/` is the verified library (crate `lib`).
- `tests/` runs the library on concrete inputs.
- `app/` holds what touches the machine: reading and writing files, the clock and
  sleeping, the console, channels to a frontend, and the run loop (with or without a display).
