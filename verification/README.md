# ATM auto runner

The verified core of a desktop runner for the Samsung ATM test suite, which
runs the suite's Java tools on Android devices over `adb`.

- `src/` is the library, verified with Verus:
  - `text`: lines, trimming, words, search and replacement over characters;
  - `devices`: the `adb devices -l` listing and the probe of each device's
    properties (version, PDA, display id);
  - `catalog`: the built-in tool list and the one read from `TestInfo.xml`;
  - `launch`: the Java command line of each tool;
  - `runner`: the per-device test sequence as a state machine;
  - `protocol`: what a whole device sequence reports, read by a checker;
  - `state`: the shared ATM folder and running flag;
  - `clock`: `HH:MM:SS` time stamps;
  - `regex_engine`, `platform`: the trusted calls into `regex` and std.
- `app/` is the Tauri shell: commands, processes, files and events.
- `tests/` runs the library on concrete inputs.
