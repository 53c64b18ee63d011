# gears

A verified library for a set of platform gears, written in Verus.

- `src/` is the library, every function of it verified:
  - `canonical`: the canonical error envelope (AIP-193 categories) as plain values.
  - `account`: account management's wire vocabulary, its domain error, the
    classification ladder from domain error to canonical envelope, and the
    SDK's typed projection back, with the law that every domain error
    survives the round trip in its own category.
  - `types_registry`, `nodes_registry`: the same for those two services.
  - `authn`: the static authentication resolver (tokens and client
    credentials to identities).
  - `gateway`: the API gateway's CORS validation, layer plan, and the typed
    layer settings (HTTP origin, method and header-name parsing).
  - `resource_group`: type-code, membership and metadata validation; the
    GTS and JSON Schema libraries are called through small trusted wrappers.
  - `cluster`: the cache contract and its laws, the in-memory store, the
    standalone plugin's state (shutdown gate, slow-watcher accounting), the
    configuration-driven wiring decisions (start order, provider checks,
    all-or-nothing registration, the shutdown plan), the reference model the
    replay checks a backend against, and that replay run against the
    in-memory store, proved never to diverge.
  - `text`: string helpers proved against the `Seq<char>` view.
- `tests/` exercises the library on concrete values.
- `app/` is the runtime around it: the tower-http CORS layer, the standalone
  cache's clock, sweeper task and watch channels, profile startup and
  shutdown, metadata validation through the types registry, the replay
  driver, and the serde forms of the configuration.
