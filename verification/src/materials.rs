pub mod material;
pub mod metal;
pub mod dielectric;
pub mod diffuse_light;
