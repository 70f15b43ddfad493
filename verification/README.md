# Ant War

A real-time strategy game: buildings hold ants, send half of them to other
buildings on a move order, and a building whose inhabitants run out falls to
the attacker. The last player owning anything wins.

## Layout

- `src/` is the game's rules, verified with Verus:
  - `map.rs`: maps (their buildings under the least free ids, head quarter
    slots), map file names, and the collection of known maps;
  - `manifest.rs`: the manifest of asset files, read from and written to text;
  - `game/`: inhabitants, move orders, ant spawners, building selection,
    player colours, the phases of a match, the winner, starting owners;
  - `map_editor/`: resizing, placing and selecting buildings in the editor;
  - `collections.rs`: the contracts of bevy's hash collections as the game
    uses them;
  - `text.rs`: string order and prefixes.
- `app/` is the bevy application around the library: systems, rendering,
  input, asset loading and saving, and the parts of the game that compute
  in floating point (bot scores, projectiles, movement).
- `tests/` runs the library on concrete cases.
