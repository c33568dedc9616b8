pub mod apps;
pub mod home;
pub mod job;
pub mod job_folder;
pub mod manager;
pub mod workflow_folder;
pub mod params_editor;
pub mod state;
