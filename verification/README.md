# opus_pvm

A provenance library: it reads system traces (audit records and ClearScope
messages), builds a provenance graph of actors, stores, conduits, names and
contexts, and keeps that graph in a Neo4j database, a Cypher script or a set of
CSV files for the Neo4j importer.

The library is written in Verus: Verus checks every function under `src/`
against its contract (`requires`/`ensures`, where it has one), and the
laws of the library are proof functions there.

Layout:

- `src/data/` — identifiers, database values (and their Cypher literals),
  and the node and relationship types with their database records (writing a node and reading it back gives
  the same node).
- `src/ingest/` — the provenance model (`pvm.rs`: versioning of stores, edit
  sessions, names, relationships made once), the audit-record plans and their calls
  (`parse.rs`, `audit_ops.rs`), the process-node cache, and the state machines that batch
  changes for the database (`persist/`, `db_loop.rs`).
- `src/neo4j_glue/` — graph records, the Neo4j update batches, the Cypher
  script and the CSV export.
- `src/trace/` — the trace records, the ClearScope message plans, and
  their application to the provenance model (`apply_prov`, `parse_prov`).
- `src/bi_store.rs`, `src/checking_store.rs`, `src/batch.rs` — the stores the
  rest is built on, with their laws as proof functions.
- `app/` — what talks to the outside world: reading files, decoding JSON,
  the database sessions (over the Bolt driver), zip files and the view threads.
- `tests/` — tests of the library on concrete values.
