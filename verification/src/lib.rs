//! Agents: state machines driven by a scheduler thread that is woken by permits.

pub mod agent;
pub mod agent_program;
pub mod message;
pub mod permit_store;
pub mod rmbags;
pub mod scheduler;
pub mod simple_agent;
pub mod state;
