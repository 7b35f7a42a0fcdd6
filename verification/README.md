# trackscape-discord-shared

The shared logic of the TrackScape Discord bot for Old School RuneScape clans, as a Verus
library whose behaviour is stated in contracts and proved.

- `src/` is the verified library: reading clan chat broadcasts (`osrs_broadcast_extractor`),
  deciding what to announce and store for a guild (`osrs_broadcast_handler`), clan member
  names and records (`database`), the Wise Old Man sync plan, rank updates, name changes and
  the `!pb` command (`jobs`), the API rate limiter (`wom`), and the wiki and price data it
  reads (`wiki_api`, `ge_api`).
- `app/` is the I/O around it: MongoDB, Redis, the web APIs, the Wise Old Man API and the
  background jobs, with serializable copies of the library's types.
- `tests/` runs the library on concrete values.
