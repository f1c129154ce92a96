pub mod task;
pub mod user;
