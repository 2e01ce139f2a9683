# hatchery

A visual probe and benchmark service for the lakearch append-only data model:
each session (a tab) embeds its own lakearch instance, shows its data as a
graph, runs one self-asserting scenario per section of the model, and lets an
AI traverser turn natural language into appends.

## Layout

- `src/` — the library, verified with Verus. It holds the decisions of the
  service:
  - `cid` — content ids and their hex text (parse, render, round trip);
  - `text` — trimming, control characters, decimal and hex rendering;
  - `vocab` — the marker vocabulary, the marker table, leaf labels;
  - `roles` — which display role and label a datum gets;
  - `api` — request bodies, the graph projection of the visible data, leaf
    payloads, datum reports;
  - `session` — the session registry (ids, titles, instance directories) and
    each session's view state;
  - `auth` — the Basic authentication gate;
  - `tools` — the tools advertised to the model and the validation of a call;
  - `chat` — the traverser's conversation loop as a state machine;
  - `state` — configuration choices and the request error;
  - `scenario` — the scenario catalog and each scenario's verdict and text.
- `app/` — the server around the library: HTTP routes (axum), the live
  WebSocket channel, the model API client, and every call into the embedded
  lakearch instance.
- `tests/` — tests of the library on concrete values.
