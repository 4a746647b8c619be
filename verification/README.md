# ccometixline

The segments of a terminal status line (git state, model name, local time,
rate-limit usage) and its default theme, as a Verus library whose contracts
are proved.

- `src/text.rs`: lines and words as std splits them, decimal numbers both
  ways (`str::parse::<u32>` and `{}` / `{:02}`), joining.
- `src/git.rs`: `git status --porcelain=v2 --branch` parsed into branch,
  ahead/behind, sha and tree state; the segment's text.
- `src/clock.rs`: instants, their differences, local times and the
  Gregorian calendar they are checked against; RFC 3339 and the time zone
  are chrono's.
- `src/usage.rs`: where usage comes from (input, cache, API), what is cached,
  the proxy the host program's settings ask for, and how the windows render.
- `src/model.rs`, `src/time.rs`, `src/segment.rs`, `src/config.rs`,
  `src/theme_default.rs`: the other segments, shared renderings, the
  configuration vocabulary and the default theme.
- `app/lib.rs`: running `git`, the clock, the cache and settings files, the
  usage API, and serde copies of the library's types. The host program's
  directory, npm package and product name are given to `Context::for_host`
  by the caller.
