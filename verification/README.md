# crewlist

The domain of CrewList, a single-user todo list whose tasks an outside agent
picks up, works on, and answers with concrete action items — written in Verus
and verified.

`src/` is the library, with no I/O:

| module   | what it holds |
|----------|---------------|
| `status` | task status and origin; the legal transition table and its laws |
| `task`   | the task record, lifecycle stamps, the agent queue, title trimming and validation, parent and delete checks |
| `detail` | the detail document, its empty default, the schema-version check |
| `dto`    | the wire records and health constructors |
| `error`  | error codes, exit statuses, domain errors and their messages |
| `api`    | error code ⇄ HTTP status, and the round-trip law |
| `store`  | storage failures and the health report from the stores' pings |
| `mongo`  | the detail collection's validator, its BSON rendering, and the setup commands with their order |
| `config` | the bind address default and required settings |
| `text`   | decimal rendering of integers |

`app/` is the server around it: axum routes and extractors, the Postgres and
Mongo drivers, environment reading, logging, signals, and serde copies of the
library's records with conversions both ways.

`tests/` runs the library on concrete values.
