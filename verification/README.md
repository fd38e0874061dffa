# buzz

The decision-making core of the Buzz supervisor tooling, verified with Verus.

`src/` holds the library. Its functions carry contracts that Verus proves,
except the trusted wrappers around outside code (`src/external.rs` and
`push_char` in `src/text.rs`), whose contracts Verus assumes; each states
what the wrapped outside function's source or documentation shows. Modules:

- `dev_tools` — the dev MCP server's tool scope (`full` / `read-only`), its
  case-insensitive shell command deny-list, and the multicall personality
  chosen from the program name.
- `decision_gate` — the four decision states, their tag texts and the
  `decision_state` tag, and the ISM status comment.
- `summary` — the Markdown summary of an ISM issue with its comments and
  attachments.
- `execution` — the dev/tester fan-out: prompts, tool scopes, `buzz-acp`
  arguments, how each child's end is reported, the consolidated result and
  its message.
- `ism` — the ISM client's data model and errors, endpoint addresses,
  request fields, response classification and the cached login token.
- `commands` — channel resolution, ISM settings, `supervise` planning and
  failure reporting of the CLI commands.
- `text` — the character-level definitions (ASCII case folding, substring
  search, decimal rendering, joining) the contracts are written in.
- `external` — the trusted boundary to `nostr`, `uuid`, `url` (through
  `reqwest`), `chrono`, `moka` and `std::path`.

`app/` is the program around it: environment, HTTP (reqwest), JSON (serde),
subprocesses and timeouts (tokio).
