# mcp-netdiag-rs

A read-only MCP server that lets an assistant inspect the live network state of
a Linux host without handing it a shell. A fixed set of 24 tools runs
allowlisted commands (`ip`, `ss`, `resolvectl`, `ping`, `tcpdump`, ...) with
pinned arguments; callers append validated tokens and nothing else.

What the server decides and computes is a library written in Verus: which
command a tool stands for, which arguments pass, which commands the operator
has enabled, how output is bounded and what it is taken to mean, and what the
audit journal records. Every function of the library states its result in its
contract, and Verus proves it.

## Layout

- `src/netdiag/`: the command table and its gates, the token validators, the
  result envelope, and the laws that tie them together
- `src/mcp/`: the tools, their parameters, the catalog, the journal rows, and
  their laws, among them that time stamps read back and sort by time
- `src/config.rs`, `src/errors.rs`, `src/protocol.rs`: limits and environment
  variables, errors with their pinned JSON-RPC codes, requests and errors on the
  wire
- `src/tools.rs`, `src/commands.rs`: a compact service with seven of the tools
  behind plain JSON-RPC; the program in `app/` does not offer it (see below)
- `src/json.rs`, `src/text.rs`, `src/key_set.rs`, `src/assoc.rs`,
  `src/calendar.rs`, `src/clock.rs`: the values that the rest is made of
- `app/`: the program around the library: the `rmcp` server on stdin and stdout,
  starting processes, reading files, the journal file, the environment
- `tests/`: the library at work on concrete values

## Configuration

| Variable | Meaning |
| --- | --- |
| `NETDIAG_ENABLE_PRIVILEGED` | Opt-in for the six privileged tools: a comma-separated list of command keys, `all`, or `none`. Unset: all six are refused. |
| `NETDIAG_ALLOWLIST` | Comma-separated command keys that stay runnable. It narrows only. Unset: all commands. |
| `NETDIAG_JOURNAL` | Path of the audit journal. Default: `/tmp/mcp-netdiag-journal.jsonl`. |
| `RUST_LOG` | Log filter. Logs go to stderr. |

A tool of the server runs if and only if the allowlist admits its command and the command is
not privileged or opted in to.

## The compact service

The service in `src/tools.rs` is not for callers that are not trusted. It has
neither filter nor opt-in: `ping` and `traceroute` run without being enabled.
Its tokens are held to the same length and characters as those of the server,
but may begin with `-`, so a caller can hand a command an option such as `-f`
in the place of a target, an interface or a unit.

## What is taken on trust

The proofs rest on a handful of facts about the standard library, each stated
where it is used: that `String::from_utf8_lossy` is determined by its bytes and
keeps valid UTF-8 (`src/netdiag/commands.rs`), and what `Duration` and
`SystemTime` say of seconds and milliseconds (`src/clock.rs`).
