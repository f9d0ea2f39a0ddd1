# ta_ting

The verified core of TaTing, an offline dictation input method: press a
hotkey, speak, press it again, and the recognised text is typed at the cursor.

`src/` (verified with Verus):

- `state_machine` — the dictation state machine (`Idle → Recording →
  Transcribing → Inputting → Idle`, with `Error` and recovery) and its laws.
- `punctuation` — rule-based Chinese punctuation restoration, specified
  character by character, with laws (only marks are inserted, non-empty
  output ends a sentence).
- `models` — the model registry, the model list, locating, downloading and
  deleting models, and the registry of cancellable downloads.
- `workflow` — what a hotkey press or a tray menu entry does, and the
  throttling and decimation of audio frames sent to the recording indicator.
- `hotkey`, `recorder`, `settings` — hotkey notifications, the recorder
  state, user settings and configuration defaults.
- `text` — character helpers (the one trusted item, `String::push`, is here).

`app/` holds the desktop application around it: Tauri commands, window and
tray, microphone capture (cpal), recognition (sherpa-rs), clipboard and
keyboard input, the global hotkey, settings files and model downloads.
