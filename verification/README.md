# snaky_rhythm

The rules of a rhythm snake game, verified with Verus. The snake may only
turn and advance on the marked beats of a level's music; it eats flowers to
grow and score, and loses when it leaves the 12 × 8 map or bites itself.

- `src/grid.rs`: cells, the body's movement, collisions, free cells and the
  choice of a flower's cell.
- `src/level.rs`: a level's settings and the three levels of the game.
- `src/game.rs`: a level in play; `Game::frame` decides one animation frame.
- `src/laws.rs`: what every frame keeps (length, collisions, the flower, the
  score, the beat count).
- `src/random.rs`: the random draws, made by the `rand` crate.
- `app/`: the canvas user interface, the audio and the frame loop, on `glayout`.
