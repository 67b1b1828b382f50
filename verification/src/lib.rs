//! Verified core of a skill-tree viewer: the sprite atlas, the pan/zoom view
//! transform and the planning of each frame's textured quads.

pub mod orbit;
pub mod render;
pub mod resource;
pub mod table;
pub mod text;
pub mod texture_bag;
pub mod tree;
pub mod view;
