//! The commands, and what they share: the report that a command ends
//! with, and the steps by which it gets there.

pub mod burn;
pub mod report;
pub mod securities;
pub mod session;
