# mcp-atlassian-rs

The core of an MCP server that gives callers tools for Jira, written in Verus.

The library decides and computes; it does no input or output.

- `src/text.rs`, `src/json.rs`, `src/string_set.rs`, `src/lists.rs`, `src/outcome.rs`: text,
  JSON values, ordered sets of texts, and facts about sequences and results.
- `src/json_codec.rs`, `src/atlassian/url.rs`: JSON read with `serde_json`, URLs handled with
  `reqwest::Url`. What these modules say of the two crates is believed, not proved.
- `src/atlassian/`: credentials, errors, requests to a REST API and the reading of replies.
- `src/jira/`: the settings of a Jira service, checks of arguments, the requests of the core
  tools and what is read from their replies.
- `src/tool_registry.rs` and `src/tool_registry/`: the registered tools, toolsets and
  profiles, and the rules by which a tool is shown and a call is let through.
- `src/mcp.rs` and `src/mcp/`: the tools themselves, from arguments to a request or to an
  operation of the Jira client.

Each function states what it returns; public proof functions named `law_...` state what holds
across functions.

`app/` holds the protocol side: the server handler, the arguments as they arrive with their
schemas, and the sending of requests. The operations of the Jira client beyond the core tools
are run by an implementation of `JiraOperations`.
