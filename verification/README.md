# dockup

DockUp manages Docker hosts from one place: an agent runs on each host,
reports its containers, asks registries whether newer images exist and
recreates containers on request; a central API keeps hosts, containers and
update jobs in SQLite and relays between the agents and a web UI.

This crate holds what the two programs decide, verified with Verus:

- `src/text.rs` – text primitives (`find`, `rfind`, trims, `split_whitespace`,
  `join`) proved against spec functions on `Seq<char>`.
- `src/ids.rs` – identifiers and clock readings from `uuid` and `chrono`.
- `src/json.rs` – JSON text parsed by `serde_json` into plain values, and
  member, element, string and array reads on them.
- `src/table.rs` – a table of values by text key with the map it stands for
  as its view; the agent table and the digest cache are built on it.
- `src/agent/` – image references and their laws, the registry protocol
  (Docker Hub and token-authenticated OCI registries, their JSON replies
  included) with its digest cache,
  container listings, the recreation of a container, the reading of the JSON
  that `docker inspect` prints and the `docker run` command rebuilt from it,
  reconnect backoff and its laws over any run of attempts, the agent's
  messages, and the self-update checks (release tags, SHA-256 checksums).
- `src/api/` – the records and messages, the container listing filter and job
  queries, the answers of each endpoint, update targets and jobs, paging, the
  table of connected agents and its law over any run of calls, what each
  agent message is turned into, and the SSH onboarding sequence (the agent
  binary comes from the project's GitHub Releases).

`app/` is the I/O around it (HTTP, WebSockets, Docker, SQLite, SSH, files);
it is built as one program, `dockup agent` or `dockup api`.
