# rpa_vm

The verified core of a plugin-driven UI automation virtual machine.

`src/` is the library, verified with Verus:

- `value`, `number`: dynamic values (numbers held as IEEE 754 bit patterns) and
  the exact double of a 32-bit integer.
- `element`, `target`, `instruction`, `context`, `eval`: the data model, the
  execution context and condition evaluation (a condition on the screen or
  on a script is decided by answers obtained outside).
- `executor`: the instruction executor as a state machine; each step takes the
  outcome of the last requested work and returns the next work to do.
- `finder`, `retry`: the fallback chain of perception strategies and the retry
  decisions.
- `actor`, `perception`, `window`: the actor and perceptor interfaces, the
  stand-ins that need no screen, and the decisions of the Windows actor and
  window finder (key codes, mouse flags, window selection, wide strings).
- `vm`, `config`, `task`, `plugin`, `desktop`, `storage`, `error`, `fmt`:
  configuration, results, plugin manifests, the desktop front end's data
  (settings, base64, engine readiness), the database schema and what
  running its migration does to a database, errors and text
  building.

`app/` is the server program around it: configuration files, the async loop
that performs what the executor asks for (finding, acting, sleeping,
cancelling, loading called workflows, answering condition probes), and the desktop front end's engine process handling.
