# wars_core

The rules core of a turn-based strategy game, written in Verus: the
configuration that defines a game (its tags, global script, rules, movement,
unit, terrain, token, effect, commander and hero types, their powers,
matrices and custom tables) is read from the text of its CSV files and
checked, and the rules that work on plain
values (unit and terrain filters, movement patterns, attack patterns, fog,
details on the map, number modifications) are proved against their
specifications.

- `src/` is the verified library. `src/config/config.rs` reads a
  configuration's files in the order of `spec_file_name` (`parse_config`)
  and answers queries about it. Running the global script is the script
  engine's work and stays outside: the library checks that the script is
  there and compiles.
- `app/` reads a configuration folder from disk and hands the texts of its
  files to the library.
- `tests/` holds the tests.
