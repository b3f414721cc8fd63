# tiger_lib

Parts of a validator for the script files of Paradox games (Victoria 3 and
Hearts of Iron IV), written in Verus: each function states what it does in
its `requires` / `ensures`, and Verus proves it.

## Layout

- `src/` — the verified library.
  - `fileset.rs`: the files of the game, its DLCs and the mods; load order,
    which file overrides which, lookups, the checks on where files lie, the
    validator's configuration of secondary mods.
  - `pathtable.rs`, `token.rs`, `block.rs`: paths, locations and parsed
    script blocks.
  - `report/`: error reports, the report store (filters, ignore
    directives, suppressions, consolidation, show order) and the text
    layout of printed reports.
  - `scopes.rs`, `hoi4/`: scope types, scope links, prefixes and iterators.
  - `validator.rs`, `vic3/`: field-by-field checks of Victoria 3
    definitions, the reports that what they find becomes, and the database
    of items they are added to (`db.rs`).
  - `data/defines.rs`: the game's defines.
  - `lsp_tables.rs`: names and block schemas of built-in triggers and
    effects for editor tooling.
  - `item.rs`, `game.rs`, `order.rs`, `text.rs`: item types, games, sorting
    and text helpers.
- `tests/` — tests of the library on concrete values.
- `app/` — what touches the machine: the process-wide report store and path
  table, scanning directories, reading mod descriptions, printing reports
  with colours.

## Checking

`verus` on `src/lib.rs` verifies the library; the outside crates it calls
(`encoding_rs`, `unicode-width`) are reached through a few trusted
wrappers whose contracts are documented where they are declared.

## Design notes

- Collections keyed by text (the defines, the item database, the set of
  file names, the names marked as used) are `Vec`s searched in order, not
  hash maps. Their contracts speak of the order in which entries were
  added and of which entry a lookup finds; over `Vec` both are stated and
  proved exactly, while for a `String`-keyed `HashMap` or `HashSet` Verus
  gives no usable statement of what a lookup returns.
- Script fields (triggers, effects, descriptions, modifiers) are not
  checked here: a definition's check records each of them, with the scope
  it is to be checked in, in `Validation::scripts`.
- Reports are printed as text; there is no JSON output.
