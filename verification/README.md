# rs_es

An ElasticSearch client library whose request building and response reading
are verified with Verus.

## Layout

- `src/` — the verified library.
  - `json` — the JSON model (`Json`, its view `JsonV`), the compact writer
    (`to_json_string`), decimals (`Decimal`, used where ElasticSearch takes
    or gives floating-point numbers), name-keyed maps (`KeyedMap`) and the
    `FieldBased` shape `{field: {..options..}, ..outer options..}`.
  - `query` — the Query DSL builders and their JSON forms.
  - `operations` — for each operation, the request it makes (method, path
    with query string, body): index, get, delete, bulk, refresh, analyze,
    version, delete index, mapping, search by URI and by query (sorting,
    source filtering, highlighting, scan and scroll), count, aggregations and
    the reading of aggregation results.
  - `units` — durations, distances, locations, geo boxes, scalar JSON values.
- `tests/` — tests of the library on concrete values.
- `app/` — the HTTP client (`reqwest`): sends the library's requests, reads
  responses with `serde`, and converts between `serde_json` values and the
  library's JSON model.

The contracts state each request's method, path and body exactly, the JSON
form of every builder, and when reading a response succeeds and what it
reads.
