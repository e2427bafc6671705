# ferrous_forge

The rules, analyses and fixers behind Ferrous Forge, a Rust development standards
enforcer, written in Verus with their behaviour stated in contracts and proved.

## Layout

- `src/` — the verified library:
  - `text.rs`: the text model (character sequences, lines, search, replacement, decimal
    and UTF-8 lengths) that every other contract is stated over;
  - `config.rs`: the configuration, its defaults, and the keys that can be read and set;
  - `violation.rs`, `error.rs`: violations of the standards, and the library's error;
  - `fix/`: analysing a file's context, rewriting a line to fix an `.unwrap()`,
    `.expect(..)` or `let _` violation, fixing a file's violations from the last line to the
    first, filtering violations and grouping them by file, and the statistics of a run;
  - `ai_analyzer/`: the code context and meaning of a violation, how hard it is to fix,
    strategies per kind, agent instructions, and the orchestrator instructions;
  - `cargo_intercept/`: the tiered blocking of cargo commands and the semantic-version
    check of a crate's version;
  - `commands/`: the command values, git hooks, template variables, shell integration and
    its removal, self-update asset names, release tags, the counts of the safety pipeline
    statistics, and the pieces of the AI compliance report.
- `tests/`: the tests of the library.
- `app/`: the command-line program: argument parsing, files, the configuration file. Its
  reading of sources for the AI analysis has no caller yet, since violations come from a
  standards validator that this build does not include.

Laws that span several functions are public proof functions named `law_*`.
