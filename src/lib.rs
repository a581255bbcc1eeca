//! A voxel-block world core: cube mesh generation over a single-row texture
//! atlas, atlas name resolution, world bootstrap and block interaction.
pub mod atlas;
pub mod bootstrap;
pub mod mesh;
pub mod world;
