# csm - Checkmk synthetic monitoring

A command-line tool to manage Robotmk environments, with its decisions
verified in Verus.

- `src/` is the verified library: the configuration (`csmrc`), the `env`
  subcommands (`env`, `env::create`), how `micromamba` is called, found or
  downloaded (`micromamba`, `micromamba::download`), the shell integration
  (`shell`), and small helpers (`text`, `platform`, `util`). Work that talks to
  the operating system or the network is expressed as steps: the library says
  what to do next, the caller does it and reports back.
- `app/` is the program around it: command-line parsing, logging, reading
  `~/.csmrc`, running processes, fetching the `micromamba` archive and
  writing the binary that the library finds in it.
- `tests/` exercises the library.
