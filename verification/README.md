# pkgrisk

A package health and risk checker for npm, PyPI and crates.io packages. The
library in `src/` holds the scoring rules, the reading of registry answers and
manifests, and the decisions of the `check` and `scan` commands, each with a
contract proved by Verus. The program in `app/` does the network, database,
file and terminal work around it.

- `src/scoring/`: category scores, the weighted health score, verdicts.
- `src/ecosystems/`: package metadata read from npm, PyPI, crates.io and OSV answers.
- `src/json.rs`: the document model those answers are read from.
- `src/text.rs`: character-level text operations (search, replace, words, numbers).
- `src/cli/`: what `check` and `scan` decide; `src/output.rs`: report form and one-line report.
- `src/cache.rs`, `src/config.rs`: cache lifetime rules and default settings.

## Rules chosen here

Some of the features described above come without a rule in the tool's
documentation. The rules below are this crate's own choices, each stated in
the contracts:

- Adoption: 100 from 1,000,000 weekly downloads, 90 from 100,000, 80 from
  10,000, 60 from 1,000, 40 from 100, 20 below that, 50 with no count.
- License conflicts: a dependency whose license binds to strong copyleft
  (every " OR " or "/" alternative names GPL or AGPL in some " AND " part)
  scores 25 in a project whose license does not; parentheses are not read.
- Bus factor and community: no registry document read here carries the
  figures, so both score 50, the score of an unknown category (as an unknown
  license or release date does).
- Ecosystem inference: without `--ecosystem`, npm, then PyPI, then crates.io
  are asked, and the first that has the package is used.
- `NAME@VERSION`: the last '@' that is not the first character separates the
  version.
- The health score is the weighted average rounded exactly, halves upwards.
- A cache entry is fresh while its age in seconds is at most the lifetime,
  compared without wrap-around.
