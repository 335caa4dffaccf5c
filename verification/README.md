# quick_translate

The core of GLC Quick Translate, a Windows selection translator: select text
in any program, press a hotkey, and the translation is shown in a bubble next
to the cursor (`Ctrl+T`) or pasted over the selection (`Ctrl+Shift+T`).

The library in `src/` is verified with Verus. It holds the decisions of the
tool, each with a contract:

- `pipeline`: one capture-and-translate job as a state machine. The caller
  performs each action (show the bubble, capture, translate, paste, write the
  history) and reports what came of it; the job decides what follows.
- `replace_flow`: writing the translation shown in the bubble back into the
  window it came from, as a state machine of the same kind.
- `capture`, `python_capture`, `clipboard_util`: reading the outcome of a
  simulated copy or of the Python capture helper, the stale-clipboard rules,
  and the messages and log blocks around them.
- `history`: finding, deleting, trimming and appending history records, and
  the guard that refuses the stale clipboard text of the latest translation.
- `settings`: defaults and normal form of the settings.
- `bubble`, `window_layout`: the bubble's payloads, height and placement, its
  write-back session and auto-hide counter; the main window's placement.
- `commands`: hotkey dispatch, hotkey registration, tray and window-close
  decisions.
- `text`: character-level helpers with their meaning stated over `Seq<char>`.

`tests/` runs the library on concrete values. `app/` is the Tauri shell around
it: windows, tray, global hotkeys, clipboard, Win32 input, files, the Python
process and the serde copies of the library's types.
