pub mod text;
pub mod job;
pub mod selection;
pub mod pipeline;
pub mod store;
pub mod worker;
pub mod dashboard;
pub mod format;
