/// Actors, action decoding, and the single-step movement and reward rule.
pub mod actor;
/// Grid cells and the Manhattan distance between them.
pub mod position;
/// The grid world: validated construction, move validation, and the
/// running flag.
pub mod world;
