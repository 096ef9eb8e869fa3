# iota

An agent CLI for the terminal. This crate is its logic: the config and its three layers, the command line, the run
loop, the project overlay and its skills, the hosts a chat runs inside, and the commands that edit the MCP servers a
config declares. Everything under `src/` carries a contract and is verified with Verus; `app/` is the program around
it.

## Layout

- `src/text.rs`, `src/map.rs`, `src/size.rs`, `src/double.rs` — texts, ordered maps, sizes in bytes, and the ranges of
  floating-point numbers by their bits.
- `src/yaml.rs`, `src/json.rs` — documents as plain trees; the parsers and printers stay outside.
- `src/app/` — directories, the environment and `${…}` references, temporary names, diagnostics.
- `src/config/` — the documents, their merge and validation, model references, layered parameters, the rewrite of one
  block of a file.
- `src/chat/` — budgets, reports, the tool loop, images, delegated children.
- `src/agents/` — the `AGENTS.md` chain, skills, and the built-in prompt.
- `src/host/` — the multiplexers and the presenter over them.
- `src/cmd/` — the commands.

The layers of a config answer one question each: `providers:` says how to reach an API, `models:` which model and how
its protocol works, `agents:` how it is driven.

## What is trusted

The calls into `serde_json`, `serde_norway`, `jiff` and `rand`, and a few functions of std, stand behind small wrappers
whose contracts are believed. Each says in its doc comment what is claimed of the outside function.
