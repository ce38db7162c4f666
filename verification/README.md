# agent_core

A verified library of the rules behind a multi-agent desktop platform:
validated claims and evidence, startup milestones, autonomy and budget
policies, coding and architecture agent profiles, review workflows, the
invocation ancestry graph with its cycle and depth preflights and parallel
fan-out planning, the skill package parser, and the decisions of the
desktop bridges (chat turns and their stream outbox, provider OAuth flows,
credentials, transport, skills, workflows, sessions, the updater).

- `src/` holds the library. Every function there is verified by Verus
  against its contract; calls into outside crates (uuid, chrono, sha2,
  base64, ring, serde_json) sit behind small trusted wrappers whose
  contracts name or state what those crates compute.
- `tests/` exercises the library from outside with concrete values.
- `app/` is the command-line shell around the updater: file I/O, serde
  wire types, and the floating-point parts that Verus does not take
  (improvement and evaluation metrics, memory importance scoring and
  memory candidate extraction).
