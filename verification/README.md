# git-cheatsheet

A keyboard-driven terminal cheatsheet of git commands, with vim-like keys, a
search over commands and descriptions, and a key to copy a command to the
clipboard with its placeholders filled in or removed.

The library in `src/` is verified with Verus:

- `data` — the built-in catalogue of commands, grouped in categories.
- `text` — character-level text: substring search, replacement of every
  occurrence of a pattern, and the placeholder rules of the clipboard text.
- `search` — which commands a query finds, and in what order.
- `app` — the browser state: selection, categories, search, copy feedback.
- `keys` — what each key does in each mode.
- `view`, `layout` — what the screen shows and where the panes go.
- `laws` — properties that span several operations.

`app/` holds the terminal program: the event loop, the conversion of terminal
key events, drawing with ratatui, and the clipboard tools.
