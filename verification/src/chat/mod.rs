//! One run of a conversation through the model.

pub mod batch;
pub mod delegator;
pub mod execute;
pub mod images;
pub mod laws;
pub mod once;
pub mod report;
pub mod run;
pub mod turns;
