# voicepicker

The verified core of VoicePicker, a menu-bar tool that reads the selected text
aloud through a local speech service.

- `src/` is the library, verified with Verus:
  - `audio::manager`: the playback state machine (idle, playing, paused, stopped),
    the playback position and progress, and laws about them;
  - `tts::engine`: the service's address, how health and synthesis replies are read,
    the retry and start-up decisions, and the interpreter and script paths;
  - `tts::external`: the trusted calls into `base64` and `serde_json`;
  - `hotkey`: the hotkey flow, from selection to playback;
  - `commands`, `clipboard`, `settings`: the decisions of the application's commands;
  - `text`: decimal rendering, path joining and blank-text checks.
- `tests/` runs the library on concrete values.
- `app/` is the program around it: Tauri, the rodio audio device, the HTTP requests,
  the Python process and the settings file.
