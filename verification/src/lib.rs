//! A bridge between a host application and a natively compiled dynamic
//! library: the decisions of one isolated foreign call, the marshaling of its
//! strings, and the JSON envelope handed back to the shell.

pub mod error;
pub mod marshal;
pub mod outcome;
pub mod invocation;
pub mod response;
pub mod guarantees;
