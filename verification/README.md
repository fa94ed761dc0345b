# thesilentreach

The deterministic core of *The Silent Reach*, a space exploration game,
written in Verus and proved against its contracts.

- `src/universe.rs`, `src/universe/`: grid cells and sectors, star and planet
  kinds, the stateless star hash (`star_common`), which sectors are generated,
  drawn and kept around the camera (`spawner`), the planet texture atlas
  slots, and the terrain quadtree (`terrain`).
- `src/persistence.rs`: default names, whether a cell holds a star, the
  registry entry of the current system, the spawn plan and the jump.
- `src/player/`: the system console, the welcome prompt, the star map and the
  in-world labels.
- `src/launch.rs`: command-line options and the universe seed.
- `src/text.rs`: the text operations the above are written with.
- `app/`: the program around the library: the SQLite store, floating-point
  star and planet data, and `main`.
- `tests/`: tests of the library on concrete values.
