# kingbase_types

Value codecs, type metadata and SQL text rewriting for the four
compatibility modes of KingbaseES (PostgreSQL, MySQL, Oracle and SQL Server),
written in Verus, with contracts that Verus proves. Where a value is opaque
to Verus (`BigDecimal`, `SystemTime`, `Uuid`), the library works on its own
plain form of it (`DecimalParts`, `TimeOffset`, the sixteen bytes) with exact
contracts, and the calls into the outside crates are trusted items whose
contracts name what those calls return.

Layout of `src/`:

- `types`, `builtin`, `type_system`, `mysql_types`: database types, the
  built-in type table of each mode, and the codec aliases of the MySQL mode.
- `codec`, `primitive`, `wrappers`, `array`, `numeric`, `decimal`,
  `kingbase`, `mysql_bit`, `sys_types`, `system_time`, `uuid_codec`,
  `hstore`: the `FromSql` and `ToSql` traits and
  their implementations, on top of the byte-level specs in `wire`, `text` and
  `protocol`.
- `sql_compat`: rewriting of `?` and Oracle bind parameters into `$n`.
- `query`, `statement`, `prepare`, `connect`: the decisions of the client:
  parameter encoding, statement metadata, catalog checks of extension types,
  and the compatibility probe run when a connection opens.
- `dat`, `catalog`, `catalog_text`, `catalog_build`, `catalog_gen`: reading
  the `.dat` type catalogs into ordered type tables and writing the Rust text
  of the type tables from them.
- `error`: the error types and their messages.

`app/` holds what Verus does not see: writing the type tables to disk, and
error types with `Display` and `std::error::Error`.
