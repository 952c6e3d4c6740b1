# query_engine

A small document store with a JavaScript query engine. Collections of JSON
documents live in a key-value store; an uploaded TypeScript project is
bundled into one script, run by a V8 worker, and its functions answer
queries over HTTP. Scripts chain stages such as `$collection`, `$filter`,
`$group` and `$lookup` over an output array.

- `src/` holds the verified library: the JavaScript array model the stages
  work on (`js_array`), the stages' algorithms (`stages`), the engine handle
  and the rules for call arguments and outcomes (`query_engine`), the
  production and canary engine slots (`query_engine_manager`), the store's key
  layout (`repository`), the HTTP replies (`http`), and the entry search and
  rewrite rules for uploads (`typescript`).
- `app/` is the server around it: the HTTP routes, the LMDB store, the V8
  worker and stage callbacks, and the TypeScript bundler.
- `tests/` runs the library on concrete values.
