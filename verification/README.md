# chat_room

A real-time chat server whose core is verified with Verus.

- `src/` is the verified library: configuration defaults, domain models and
  status parsing, the service layer's decision rules (message length, room
  capacity, room updates, typing debounce, rate limiting, joins and leaves),
  cursor pagination over the latest-messages cache, the cache entries each
  write drops or refills (`cache_plan`), the mapping of service
  errors to GraphQL errors, the resolvers' result logic and subscription
  filters, the seed data, and the in-memory chat room with its invariants.
  Laws that span functions stand as public proof functions named `law_*`.
  The idempotent replay of creating requests is the one law stated over a
  model only: `src/idempotency.rs` states the get-or-create rule that the
  services obtain from moka's asynchronous cache in `app/`, and proves its
  laws of that rule, not of the services' code. Likewise the join law in
  `service_rules` runs the verified join steps over a model of the database,
  and `law_read_after_write` runs the verified cache plans over a model of
  the caches and the database.
- `tests/` runs the library on concrete values.
- `app/` is the program around it: the database (SeaORM), the caches (moka),
  the event bus (tokio broadcast), the GraphQL schema and HTTP server
  (async-graphql, axum), the migrations and the seeder. `chat_room seed`
  seeds the database, `chat_room chat` serves the in-memory chat room, and no
  argument serves the database-backed API.
