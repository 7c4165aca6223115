# Stackhand

Stackhand runs and supervises the commands of a local development Project in
one terminal. This crate holds its logic as a Verus library: reading and
validating Project files, Dependency order, retained output with search,
selection and scrolling, routing of keyboard, mouse and paste events, and what
a frame shows. The functions carry contracts that Verus proves; the laws
that relate several functions stand as public proof functions beside them.

## Layout

- `src/config/`: YAML documents, profiles, local overrides, environments,
  commands, checks, groups, and the redacted view of a Project.
- `src/project.rs`, `src/model.rs`, `src/graph.rs`: the effective Project, its
  profiles and its startup order.
- `src/output.rs`, `src/log_view.rs`, `src/process_logs.rs`,
  `src/pipe_scroll.rs`, `src/scrollbar.rs`, `src/scroll_laws.rs`: retained
  output, search, selection, and scrolling.
- `src/console.rs`, `src/interaction.rs`, `src/input_queue.rs`,
  `src/input_batch.rs`, `src/event_loop.rs`, `src/session.rs`: input and focus.
- `src/view_model.rs`, `src/columns.rs`, `src/geometry.rs`: what a frame shows.
- `src/fixtures/` and the `*_fixture`, `terminal_script` and `output_pressure`
  modules: the scripts and verdicts of the end-to-end fixtures.
- `app/`: the program around the library. It reads files, gathers what is known
  of the file system, reads typed documents, and moves events. Starting
  Processes and emulating terminals come through the traits in `app/host.rs`.
- `tests/`: tests of the library from outside.

## What is believed, not proved

The few calls out of the library are marked `external_body`, with a contract
that says what is relied on: YAML parsing and printing by `serde_yaml`, display
widths by `unicode-width`, UTF-8 decoding, appending to a `String`, and the
shared byte counter of the output budget.
