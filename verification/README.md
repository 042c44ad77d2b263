# rust_wiki

Tools for writing pages of The Battle Cats wiki from the game's data files,
with the page-building logic verified by Verus.

## Layout

- `src/` — the verified library.
  - `meta/stage/` — stage variants, map and stage ids, and the stage type
    table: parsing selectors, references and file names, and writing them back.
  - `stage/` — stage metadata and the data read from the game's stage files
    (enemies, options, character groups, map data), and the parsed `Stage`.
  - `wiki_data/` — names of cats, enemies, rewards and talents from the wiki's
    data files.
  - `wikitext/` — wikitext output: templates, sections, pages and tabbers, the
    parts of the Stage Info template (enemies, base hit points, treasure,
    restrictions, navigation), gauntlet tables, legend map pages, the
    Encounters section (section order, magnifications, sorting), number
    formatting and the stage-info format parser.
  - `text.rs` — character-sequence helpers and their specifications.
- `tests/` — tests of the library on concrete values.
- `app/` — reading the data files, network access for updating the wiki's data
  files, and the few items computed with floating point.

Outside crates called from the library sit behind small trusted wrappers:
`num-format` (thousands separators), `similar` (diff hunks) and `regex`
(magnification patterns in the Encounters section).

## Not included

Some parts of the wiki generator depend on modules and data that are not part
of this code base (the configuration, the wiki link and name helpers, the
loaded game-data tables and the hand-written outbreak text fixes), so they are
neither in the library nor in `app/`:

- `write_single_enemy` (and `battlegrounds`, its only caller, which is not yet
  written): needs the wiki name extraction helper and a base flag that the
  stage enemy type does not carry.
- `map_tabber` and `map_gauntlet`: need the wiki link extraction helper and
  the shared regex table.
- `intro`: needs the old/removed-stage substitution pattern and the name
  extraction helper.
- `get_stage_info`, `get_stage_info_formatted`, `si_template` and
  `get_stage_variable`: assemble a page from the configuration and the
  parts above. The parts that stand alone are in the library (the enemies
  list, information, treasure, restrictions, navigation and the battlecats-db
  `reference` link in `wikitext/stage_info/variables.rs`).
- `get_map_info`, `get_legend_map` and `get_map_option_data`: read the map
  wiki data and the map option table through the configuration.
- `manual_zoutbreak_replace`: its replacement texts are data files that are
  not here.
- `parse_map_ref` and the two `do_thing` entry points are not yet written.
