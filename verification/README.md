# amp

The verified core of the Agentic Memory Protocol server: the logic that
decides what the memory stores, how it is queried and how its answers are
shaped, with each function's behaviour stated in a contract and proved by
Verus.

## Layout

- `src/` — the library, verified by Verus.
  - `text`, `digest`, `json`: strings as character sequences, SHA-256 in
    hex, and JSON values as the logic reads them.
  - `query`, `hybrid`, `graph`: query building, routing, hybrid retrieval
    seeding and weighting, and the graph traversals (collect, paths,
    shortest path) as step machines; `shortest` proves the shortest-path
    search exact over the graph its caller answers with.
  - `cache`: memory packs within a token budget, cache blocks (rotation,
    eviction, compaction, reads).
  - `codebase`, `parser`, `extraction`, `filelog`, `chunking`: path
    matching, language detection, the tree-sitter queries of each parsed
    language and the file logs built from their matches, file-log markdown,
    and overlapping word windows for embedding.
  - `lookup`, `sync`, `artifact_write`: the file-log lookup, the file sync
    and the artifact write as step machines: each step names the query or
    statement to run next, the caller runs it and hands back the result.
  - `artifacts`, `connections`, `focus`, `objects`, `index_llm`,
    `embedding`, `models`, `sample`: the remaining request handling rules.
- `tests/` — tests run against the compiled library.
- `app/` — a command-line front end: file and directory reading, the
  environment, JSON (de)serialisation and the floating-point scores.
