use vstd::prelude::*;

pub mod app;
pub mod application;
pub mod assoc;
pub mod cli;
pub mod docker;
pub mod dok;
pub mod events;
pub mod headless;
pub mod inputs;
pub mod health_check;
pub mod job_config;
pub mod keys;
pub mod palette;
pub mod paths;
pub mod precheck;
pub mod run;
pub mod script;
pub mod sorting;
pub mod text;
pub mod update;
pub mod validate;
pub mod values;
pub mod workflow;

verus! {

} // verus!
