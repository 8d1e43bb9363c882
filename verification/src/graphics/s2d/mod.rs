pub mod s2d;

pub use s2d::S2D;
