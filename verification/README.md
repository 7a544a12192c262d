# eawsl

The rules of a desktop manager for WSL distributions, verified with Verus.

- `src/` is the verified library: distro name and operation rules, the mapping of
  `Wsl/<CODE>` errors and their messages, the merge of `wsl.exe` listings with
  registry metadata, disk-size parsing, install options, settings normalisation,
  published-metadata merging and cache freshness, filesystem probe and storage
  anchor decisions, VHDX relocation plans, launch commands, and the host overview
  outcome handling. Each public function states its result over spec functions;
  the laws that relate several of them are public proof functions.
- `tests/` runs the library on concrete values.
- `app/` is the host around the library: serde wire formats, file, process and
  network I/O, progress relaying (floating-point percentages), and the
  asynchronous command handlers.
