pub mod camera;
pub mod map;
