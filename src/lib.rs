use vstd::prelude::*;

/// Directions of the hex grid and the neighbour algebra over tile positions.
pub mod dir;
/// Exact render-space geometry of tiles and hex corners.
pub mod geom;
/// The scene index: where each visual entity is drawn.
pub mod scene;
/// The authoritative unit records that committed events update.
pub mod game_state;
/// Animated events, their commits, and the queue that serialises them.
pub mod event_visualizer;
/// Colour-coded picking: meshes, the colour encoding and its decoding.
pub mod picker;

verus! {

} // verus!
