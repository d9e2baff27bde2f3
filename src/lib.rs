//! A local agent dispatcher: free text is classified into a tool invocation,
//! checked against a policy, dispatched through a fixed tool catalog, and every
//! step is reported as an ordered sequence of events.
pub mod text;
pub mod protocol;
pub mod intent;
pub mod policy;
pub mod tools;
pub mod agent;
pub mod brain;
pub mod endpoint;
pub mod sts;
