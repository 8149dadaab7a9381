# arcam

A sandboxed development container manager with a focus on security by
default, built around podman.

The crate has two parts:

- `src/` is the library, verified with Verus: parsing of command line
  values, configuration handling (merging with the command line, variable
  expansion), the engine command lines of every command, the decisions of
  the commands that talk to the engine (as state machines that take the
  engine's answers one at a time), the init that runs inside a container
  (as a state machine too: the user, its home and skeleton, sudo, and the
  init scripts in order), feature references and their topological order.
- `app/` is the program around it: command line parsing with clap,
  configuration files with serde and toml, running processes, reading the
  file system and the environment, and the loops that drive the library's
  state machines.

Tests of the library are under `tests/`.
