# bubbaloop

The core of a node orchestration daemon, with its behaviour stated in contracts and proved.

A machine runs nodes: programs with a manifest, a build command and a service. The library
keeps what is known of them, decides what is done about commands, judges their health by their
heartbeats, and follows a chat in which a language model works them with tools.

- `src/` is the library. `daemon` holds the nodes: their state (`node`, `node_manager`), the
  registry's entries, builds and cleans (`building`, `activity`), commands and answers
  (`commands`), heartbeats (`health`, `uptime`) and changes of services (`signals`). `mcp` holds what tools
  ask and are told, and who may call which tool. `agent` holds chat sessions. `validation` says
  which names and topics are accepted. `text` and `json` hold what is done with text.
- `app/` is the program around it: arguments, files, services, the bus and HTTP.
- `tests/` runs the library on concrete values.

Functions that need something from outside take it as an argument: the state of a service, the
replies to a query, the time. What is left to other code is declared where it is called, in
`text`, `json`, `ids` and `clock`, with what is relied upon.

The node manager keeps four things true at all times. No two nodes go by the same name. A node
with a build or clean going on is shown as building. Nothing else can be built or cleaned under
its name. It is known since when each node runs that does.
