pub mod translate;
pub mod rotate;
