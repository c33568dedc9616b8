pub mod job;
pub mod logs;
pub mod executor;
pub mod state;
pub mod view;
