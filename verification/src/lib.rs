pub mod misc;
pub mod models;
pub mod number;
