//! Game logic of a rhythm-driven snake game: the snake may only turn and
//! advance on the highlighted beats of a level's pattern, eats flowers to
//! grow, and loses when it leaves the map or bites itself.

pub mod random;
pub mod grid;
pub mod level;
pub mod game;
pub mod laws;
