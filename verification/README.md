# agent-browser

A browser served to agents as MCP tools. The library decides: which page a
request means, what is asked of the browser and in which order, what is
remembered of a page, and what the client is told. It is written in Verus, and
every decision is proved against the rules in `src/rules.rs`.

- `src/server.rs`: the tools. A call starts with `browser_*` and goes on with
  `resume`; each step is a reply, a refusal, or an action with the task that
  waits for it.
- `src/protocol.rs`: actions, tasks, events and steps.
- `src/rules.rs`: how each call starts and how it goes on.
- `src/laws.rs`: what holds of the tools together.
- `src/pages.rs`: the open pages, their ids, handles and latest snapshots.
- `src/diff.rs`: what changed between two snapshots.
- `src/fingerprint.rs`, `src/network.rs`, `src/storage.rs`, `src/launch.rs`: the
  self-test, the request table, session files, and how the browser is come by.
- `src/json.rs`, `src/answer.rs`: what is taken on trust of `serde_json` and
  `rmcp`.
- `app/`: the server on stdio, which performs the actions.
