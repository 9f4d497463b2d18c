pub mod face;
pub mod is_3d;
pub mod mesh_3d;
pub mod movable_3d;
pub mod point_3d;
pub mod point_cloud_3d;
pub mod util;
