pub mod config;
pub mod job;
pub mod params;
pub mod workflow;
