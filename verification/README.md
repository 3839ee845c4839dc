# cairn_store

The store of an event-sourced agent runtime on Postgres: an append-only event
log, current-state tables that are projected from it in the same transaction,
and the queries that read them.

The library in `src/` decides everything and touches nothing. It turns an event
into the statements that project it, a read into a query and a stored row into
a record, and it proves with Verus that it does. The code in `app/` runs those
statements and queries with `sqlx` and hands the answers back.

| Module | What it holds |
|---|---|
| `event_log` | appending a batch in chunks, positions, reading events back |
| `events`, `projections` | the events and what each one writes |
| `projection_registry` | which events are projected, and into which table |
| `rebuild` | emptying the projected tables and replaying the log |
| `migration`, `script` | which migrations are pending, and how a script is split |
| `read` | rows, records and the queries that find them |
| `statement`, `query`, `sql` | statements and queries, and their SQL text |
| `schema`, `value`, `vocabulary` | tables, columns, bound values and stored names |
| `model` | what each statement does to the stored rows |
| `laws` | what holds of the store as a whole |
| `json` | JSON text, as `serde_json` reads and writes it |

`model` is the mathematical side: a database is a map from tables to rows, and
`model::after` says what a statement does to it. The contracts of `projections`
and `read` are stated over statements and rows, so `laws` can say what is read
back and found of what was written, what a replay changes and what it leaves alone.

`json` holds the only calls whose contracts are taken on trust, next to one
specification of a standard library function in `script`.
