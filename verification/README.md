# croncat

Core of the CronCat rule contract (cw-rules), the DAO DAO version
proposal helper, the tasks contract's errors and the agents/tasks messages.

- `src/` is the library, verified with Verus. `rules` decides every step of a
  rule query (which address to validate, which chain query to make, how the
  reply is answered); `coin` holds the native balance check and its laws;
  `daodao` builds the proposal; `error` gives each error its text; `agents` and
  `tasks` hold message types; `cosmwasm` declares the CosmWasm types carried and
  the trusted calls into `cosmwasm_std`.
- `app/` holds the CosmWasm entry points: JSON messages, storage of the
  contract version, address validation and the chain queries, run in a loop
  driven by `rules::query`.
- `tests/` runs the library on concrete values.

## What is not here

Some message types of the agents and tasks contracts take types that this
crate does not have, so they are left out or shortened:

- `TasksQueryMsg` has no `TaskHash { task }` query: the `Task` type it takes is
  not available.
- `TasksExecuteMsg` has no `CreateTask { task }` message: the `TaskRequest` type it
  takes is not available.
- `AgentInfo` and `AgentResponse` are left out: they hold an `AgentStatus`,
  which is not available.
- The agents `ExecuteMsg` has no `OnTaskCreated` or `OnTaskCompleted`
  notification: the types they carry belong to `croncat_sdk_core`, which is not
  available.
