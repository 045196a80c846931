# SmartCity Forge

The rules of a small smart-city builder, verified with Verus: a 32 x 20 city
grid with a river and a road network, utility and OT assets that players
build under placement and compliance rules, power and water coverage, an
hourly clock with a daily review that raises incidents and moves the four
city ratings, research that unlocks advanced controls, the graphics
configuration model, and the decisions and texts of the HUD.

## Layout

- `src/` — the verified library.
  - `grid.rs`: grid size and tile coordinates.
  - `model.rs`: tiles, assets, tools, profiles, ratings, incidents.
  - `game.rs`: the game state, placement rules, coverage, the clock and the
    daily review; `GameState::wf` is the invariant every operation keeps.
  - `settings.rs`: render capability, presets and the settings panel model.
  - `ui.rs`: interface state (clock speed, minimap mode, sidebar, panels).
  - `input.rs`: keys and HUD buttons turned into commands, and what each
    command does to the game and the interface.
  - `hud.rs`: the texts and tones shown by the HUD, the minimap and the
    settings panel.
  - `wrap.rs`, `text.rs`: word wrapping and number formatting.
  - `catalog.rs`: the asset catalog model, its counts and summary.
  - `neighborhood.rs`: neighbour masks and per-tile seeds used for city
    dressing.
  - `laws.rs`: properties that relate several operations.
  - `random.rs`: the calls into `rand` that a new city draws from.
- `tests/` — tests on concrete cities and inputs.
- `app/` — a text-mode front end that reads the environment and the catalog
  file and drives the game from typed commands.
