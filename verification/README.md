# open_pets

A desktop pet companion for a coding agent: the pet hatches from a seed,
has personality stats and a mood, earns experience and levels, reacts to
finished tasks, remembers what happened, and follows the agent's sessions.

The library in `src/` is written in Verus, and Verus proves the contract of
every function in it except six small wrappers around calls into other
code, whose contracts are trusted: `text::to_lowercase` and
`text::to_ascii_lowercase` (std's case mappings), `digest::sha256_digest`
(the `sha2` crate), and `clock::unix_time_seconds`, `clock::unix_time_millis`
and `clock::unix_time_precise` (the `chrono` clock, of which nothing is
promised). `config` also declares std's `PathBuf` to Verus.

- `species`, `stats`: the species table, rarity tiers and hatching from the
  SHA-256 digest of a seed (`digest`).
- `xp`: the experience curve and awarding XP with level-ups.
- `mood`, `reaction`, `event`: moods, reactions to tasks, engine events.
- `memory`: the memory store, its listings, search and consolidation.
- `engine`: the engine's entry points.
- `opencode_state`, `session_tracker`, `reaction_pipeline`, `config`: agent
  session states, the changes between them, and the cooldown-limited
  reactions to them.
- `overlay`, `status_panel`, `terminal`: what the overlay window, its status
  panel and the terminal companion show and how their input changes the pet.
- `text`, `rank`, `clock`: text helpers, counting and ranking lemmas, and
  the wall clock.

The laws of the library are public proof functions named `lemma_*`.

`app/` is the program around the library: the terminal companion, the
overlay window, JSON files and the SQLite store.
