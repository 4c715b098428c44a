pub mod global;
pub mod sphere;
pub mod quad;
pub mod cylinder;
