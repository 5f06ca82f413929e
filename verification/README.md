# tenx

A task column, an overlay and a terminal client, as a verified library with the
terminal programs around it.

- `src/` is the library. Its functions carry contracts that Verus proves. What a
  key, a click or a result does to a list is a function from one state to the
  next and an effect to perform.
- `app/` performs the effects: files, processes, the pty and the screen. The
  multiplexer, the task commands and the forge are reached through its `Host`
  trait.
- `tests/` runs the library, drawing its screens through the real widgets.

Within `src/`:

| modules | what they hold |
| --- | --- |
| `text`, `lines`, `path`, `sort`, `status`, `style`, `input`, `palette` | plain values |
| `ansi`, `term`, `vt`, `hyperlink` | the terminal: styles, keys, the emulator, links |
| `mouse`, `layout` | where things are on the screen |
| `progress`, `job` | long operations |
| `workspace`, `sessions`, `zellij` | workspaces, agent sessions (an agent's own registry has a module beside), the multiplexer's commands |
| `list`, `list_ops`, `list_events`, `forms` | the list beneath the column and the overlay |
| `column`, `column_events`, `column_rows`, `column_view`, `work`, `body`, `screens` | the column |
| `overlay`, `overlay_view` | the overlay |
| `client` | the column beside the task's terminal |
| `app`, `ui`, `repos`, `repos_view` | one workspace's tasks, and its repositories |

The library trusts a few outside functions: those of the standard library that
fold, quote and decode text and that read the clock, `unicode-width`
for the width of text, `ratatui` for dividing areas, and `alacritty_terminal` for
the screen of a program. Each is declared once, with what is claimed of it.
