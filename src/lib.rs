use vstd::prelude::*;

pub mod asset;
pub mod device;
pub mod frame;
pub mod material;
pub mod model;
pub mod node;
pub mod ordered_map;
pub mod pacing;
pub mod render_loop;
pub mod response;
pub mod scene;
pub mod text;

verus! {

} // verus!
