//! Task lifecycle and monthly score ledger of an open-source internship
//! programme: tasks move through assignment and completion, completed tasks
//! credit points to a per-student monthly ledger, and a monthly settlement
//! converts points into a payout under one of two policies.

pub mod date;
pub mod email;
pub mod mentor;
pub mod model;
pub mod policy;
pub mod report;
pub mod score;
pub mod student;
pub mod task;
