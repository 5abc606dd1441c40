# cbr_client

Typed building blocks of a client for the statistical data service of the
Bank of Russia (`https://www.cbr.ru/dataservice`), written in Verus.

`src/` is the verified library:

- `types`, `datetime`: positive identifiers per domain, parent references
  (`-1` for the root), years and ordered year spans, and the date types of
  the API (`YYYY-MM-DDTHH:MM:SS`, `DD.MM.YYYY`) with their conversions from
  and to `chrono`; parsing and formatting are done by the `time` crate.
- `query`: the parameters of every data method, and the exact query string
  each one is sent as (array filters as repeated keys).
- `client_common`, `client`: base URL normalisation, endpoint URLs, and the
  client builder with the transport settings that building a client applies.
- `error`: the checks of an answer before its body is parsed (the legacy
  `{Error:true}` payload, the HTTP status) and the body preview of errors.
- `models`: the answer models without floating-point values, with the
  decoding rules of their codes, sort keys and flags.
- `presets`: preset identifiers and the catalogue search of exchange rate
  series.
- `text`: the character-level operations the rest is built on (trims,
  substring search, `i32` parsing), each proved against its specification.

`app/` holds the HTTP clients (asynchronous and blocking, on `reqwest`), the
JSON forms of the answers (`serde`), the answer types that carry
floating-point values, and the error type that wraps transport and JSON
errors.
