# connectorx (Snowflake source)

The Snowflake source of the connector, verified with Verus.

- `src/typesystem.rs`: the Snowflake column types, how type names are read
  and written, and laws on them.
- `src/conn.rs`: what a connection string sets (account, warehouse, database,
  schema, role, timeout, password or key pair).
- `src/source.rs`: the source and its partitions (queries, column names and
  types, row counts), with the invariants that tie their parts together.
- `src/parser.rs`: the parser that hands out the cells of a result row by row,
  and what each cell is read as.
- `src/decode.rs`: rows as plain values, dates, times and timestamps as plain
  values, and how a cell is decoded.
- `src/sql.rs`: the count and first-row queries made around a query.
- `src/transport.rs`: the Arrow type of each Snowflake type.
- `src/errors.rs`, `src/text.rs`: errors and string helpers.
- `app/`: the calls that wait on Snowflake, the error types with their
  `std::error::Error` impls, floating-point cells, chrono values of the plain
  dates and times, and the Python string type.
