# crush

A terminal editor for the configuration file of the rush shell
(`~/.rushrc.json`): settings grouped in categories (theme, prompt, syntax and
tab colours, completion, behaviour, paths), cycled with the arrow keys or edited
in place, with colour and theme previews, saved back into the JSON document.

The library under `src/` is verified with Verus:

- `json` — the configuration document (`serde_json::Value`) and the reads,
  writes, parsing and printing the editor does on it;
- `model` — the settings, their kinds, and how they are read from the document;
- `theme` — the built-in themes and their prompt colours;
- `text` — decimal printing and parsing, string comparison and padding;
- `app` — the editor state and its commands (moving, cycling, editing, writing
  the settings into the document, saving, reacting to a key);
- `render` — the lines of each pane as styled runs of text;
- `ui` — key bindings, pane layout, the save question, the reload signal;
- `laws` — properties over several commands: cycling forward then back gives
  back the settings, cycling comes back after its period, written settings read
  back while every other key keeps its value, writing twice is writing once,
  syncing a well-typed document leaves it as it was, and a saved document that
  serde_json reads back gives the same settings.

`app/main.rs` is the terminal front end (file and terminal I/O, signals).
