//! A virtual polyhedral dice roller: a die model over the six classic
//! polyhedron kinds, static mesh topology for each kind, and a scene
//! renderer that keeps per-kind instance transforms and plans one frame
//! of instanced draw calls. The GPU and windowing work that executes a
//! frame plan lives outside this library.

pub mod die;
pub mod mesh;
pub mod scene;
pub mod dice_area;
pub mod spin;
