# Dust

A broker and an adapter that connect an MCP client to Roblox Studio, with the
rules of both proved in Verus.

```
MCP client --stdio--> dust adapter --loopback HTTP--> dust broker <--HTTP poll-- Studio plugin
```

- The **broker** owns a loopback port (1801 to 1803), the sessions and the
  routing of commands to the roles of a session.
- The **adapter** attaches to the broker or starts one, and turns MCP tool calls
  into commands.
- The **plugin** and its playtest helpers poll the broker for commands and post
  their results.

## Layout

- `src/` is the library. Its functions have contracts, which Verus checks.
  The broker is a value that handlers change one request at a time; time is a
  number that callers pass in; an HTTP exchange is a request that the library
  plans and an answer that it reads. `src/broker/laws.rs`,
  `src/broker/history.rs` and `src/adapter/laws.rs` state what holds across
  functions and over every course of events.
- `app/` is the program around it: sockets, files, the clock, the async runtime,
  serialisation and the MCP transport.
- `tests/` runs the library on concrete values.

## What is trusted

The library calls `dashmap`, `serde_json`, `tokio`, `uuid`, `http`, `dirs` and
`std::path` through small wrappers whose contracts are stated beside them:
`src/broker/table.rs`, `src/json.rs`, `src/broker/channel.rs`,
`src/broker/signal.rs`, `src/broker/identity.rs`,
`src/adapter/broker_client.rs` and `src/discovery.rs`.
