# GamePilot

A game optimisation assistant, centred on modded Minecraft: it reads launcher
instances, crash reports, settings files and mod folders, scores a modpack's
health, recommends memory and JVM settings, applies them with a backup first,
and keeps track of play sessions. It also knows a handful of other games
(League of Legends, Path of Exile, RuneScape, Escape from Tarkov, Steam).

## Layout

- `src/` — the verified library (Verus). Every decision lives here, stated in
  `requires`/`ensures` over spec functions: log and crash diagnosis, settings
  parsing and recommendations, mod analysis and conflict detection, health
  scores, JVM configuration edits (including the JSON read-edit-write of
  launcher configurations through `serde_json`), reading launcher JSON files,
  launch routing, session tracking decisions, Hiscores parsing, Steam
  manifests, Path of Exile discovery, and the law-like properties between them
  (`law_*` proof functions).
- `app/` — ordinary Rust around the library: file-system and network access,
  processes, the SQLite store, typed JSON (de)serialisation, and the few decisions
  that work on floating-point readings.
- `tests/` — tests of the library from the outside.
