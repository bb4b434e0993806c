pub mod laws;
pub mod pipeline;
pub mod pool;
pub mod repo;
pub mod status;
