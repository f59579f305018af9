# Evolution example module, verified

An Evolution extension module that adds menu items, toolbar buttons and popup
items to the mail and calendar views and to the message composer.

- `src/` (Verus) holds the decisions: the action entries and UI definitions
  (`actions`, `shell_view`, `msg_composer`), the GType facts read from memory
  (`gtype`), and the state machine that handles a shell view's "toggled"
  signal (`shell_view`), with its laws in `toggle_laws`.
- `app/` is the module that Evolution loads: the C declarations, the GObject
  type registration, and the loop that carries out the state machine's
  actions through GTK and Evolution and hands back their results.
- `tests/` runs the library on concrete values.
