pub mod math;
pub mod vec3;
pub mod ray;
pub mod objects;
pub mod instances;
pub mod materials;
pub mod color;
pub mod camera;
