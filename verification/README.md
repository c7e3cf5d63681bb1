# No Sleep Till Brooklyn

A Windows tray utility that keeps the machine awake and the display on. While it
runs, it taps F15 every 59 seconds and asks the system to stay awake. Two
command-line flags let scripts stop a running copy: `--quit`, and
`--monitor-off`, which also switches the display off.

- `src/`: the verified library, checked with Verus. It holds the program's
  decisions: command-line flags (`cli`), what a launch does
  (`launch`), the execution-state flags (`keep_awake`), the F15 key events
  (`key_input`), the display-off broadcast (`monitor`), the bounded wait for a
  stopped copy to exit (`exit_wait`), and the tray application's reaction to
  each of its events (`tray`). The laws of the program are public proof
  functions next to the code they are about.
- `app/main.rs`: the Windows program around the library. It reads the command
  line, calls the system and native-windows-gui, and carries out what the
  library decides.
- `tests/`: tests of the library on concrete values.
