pub mod laws;
pub mod messages;
pub mod model;
pub mod process_update_task;
pub mod rules;
pub mod schedule;
