pub mod errors;
pub mod fixed_point;
pub mod instructions;
pub mod logarithm;
pub mod models;
pub mod state;
