# sysinspect_ui

The decision logic of the sysinspect terminal console, written in Verus: which open dialog
takes a key and what the keys do to the dialogs, lists, forms and popups (the work that a key
asks for, such as a call to the master, is handed back to the program as an action), what the
event loop refreshes when it is idle, how the module repository is grouped and
staged, how profiles resolve their modules and libraries, how log lines, manual-page markup and
minion traits are laid out, and how the first-run setup wizard turns its fields into a master
configuration. Each public function states its result in its `ensures`; the laws of the
library (focus round trips, scroll positions that stay in range, sorted and distinct groups,
and others) are public proof functions named `law_*`.

Layout:

- `src/` – the verified library, one module per part of the console (`dslbrowser`,
  `repomanager`, `profiles`, `profileres`, `platforms`, `filepicker`, `setup`, `minreg`,
  `logview`, `logpopup`, `infotree`, `traitspopup`, `tagpopup`, `mainview`, `minionsview`,
  `macts`, `dialogs`, `mouse`, `console`, `repokeys`, `events`, `systopkeys`, ...) and small
  text utilities (`chars`, `sortutil`, `width`).
  The calls into `unicode-width`, `glob`, `indexmap` and `ratatui-cheese` go through trusted
  wrappers whose contracts name or state what those crates return.
- `tests/` – tests on concrete values, including one for each law.
- `app/` – a terminal program around the library: the setup wizard with its file pickers,
  reading directories, drawing with `ratatui`, and writing the installation to disk. The
  console's own screens need the master's RPC and event channel, which this program does not
  carry.
