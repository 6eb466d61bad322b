# deltarune_autosplit

An autosplitter for DELTARUNE, written for LiveSplit's auto splitting runtime. The
decision logic is a Verus library whose functions carry contracts proved by Verus;
the program around it reads the game's memory and drives the timer.

Layout:

- `src/` — the verified library.
  - `rules.rs`: the split rules of chapters 1 to 5, the autostart rule, and what each
    tick has to read from the game.
  - `splits.rs`: the set of splits done in a run, the split rule (pauses, resumes,
    at most once per run) and what starting a run resets.
  - `titles.rs`: the party's titles and the tracker of titles seen in a run.
  - `memory.rs`: how variable tables, objects and instances are located in the
    runner's memory, and the cache of global variables.
  - `versions.rs`: engine and game versions, recognized by the MD5 digest of the
    runner and of `data.win` (computed with the `md5` crate).
  - `session.rs`: per-process facts (chapter, table offsets) and per-tick timer
    decisions.
  - `num.rs`: the game's reals, carried by their bit patterns and compared as
    IEEE-754 does.
  - `watch.rs`, `trackers.rs`, `rooms.rs`, `text.rs`, `settings.rs`, `basic.rs`:
    watchers of values across ticks, pointer-path trackers, room and text
    conditions, string helpers, the user's settings and the basic split driver.
- `app/` — the program: attaching to the process, reading memory through the
  runtime, the settings GUI, and the timer calls.
- `tests/` — tests of the library on concrete values.
