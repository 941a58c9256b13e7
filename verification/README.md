# serial_ctrl

The verified core of a serial-port monitor with a GUI front end.

- `src/manager.rs`: the session manager, a state machine from commands
  (`PLAY`, `PAUSE`, `EXIT`, `NEW`, ...) to a new state and an action, with
  the laws it keeps.
- `src/framing.rs`, `src/serial.rs`: splitting received bytes into text
  lines (UTF-8) or decoding them as COBS, and the reader's polling decisions.
- `src/engine.rs`, `src/front.rs`, `src/ffi.rs`, `src/types.rs`: the
  background engine's events, the front end's state and replies, and the
  shared data types.
- `app/`: the program around it (command line, GUI, threads, channels,
  serial I/O, JSON), which carries out what the library decides.
