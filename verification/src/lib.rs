//! Wireframe solids: the pose and geometry of a polytope, the state of the
//! steering keys, and the decisions a scene takes from them on every tick.

pub mod demo;
pub mod input_state;
pub mod polytopes;
pub mod projection;
