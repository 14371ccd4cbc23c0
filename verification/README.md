# pkg

One set of verbs for every Linux package manager, as a verified library and a
thin command-line program around it.

- `src/` is the library, verified with Verus:
  - `backend.rs`: the backends, the actions, and `plan`, which turns an action
    into the backend's own commands; the laws of that translation (operands on
    the last step only, yes flags, escalation, name round trip) are proof
    functions beside it.
  - `config.rs`: the settings, where the configuration file lives, and the
    first-run decisions.
  - `commands.rs`: which action and backend a command uses, and reading and
    changing settings.
  - `exec.rs`: what each step launches and echoes, and when a run stops.
  - `install_hint.rs`: advice for putting the program on PATH, per shell.
  - `text.rs`: the text operations the rest is built from.
- `app/` is the program: argument parsing, the configuration file, the picker,
  PATH lookups and running the commands.
- `tests/` holds the tests of the library.
