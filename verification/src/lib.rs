//! The decisions of a command-line operator tool for a message-broker cluster
//! and its schema registry: which registry operation a set of flags selects,
//! which request that operation sends, and how the process ends. All input and
//! output is left to the caller, who performs each `Action` that a function
//! here returns and hands back what came of it.

pub mod command;
pub mod consume;
pub mod invocation;
pub mod schemas;
pub mod table;
pub mod text;
pub mod topics;
