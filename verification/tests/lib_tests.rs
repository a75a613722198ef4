#[allow(unused_imports)]
use modular_agents::rmbags::ActionSet;

#[test]
fn normative_three_agent() {}

#[test]
fn normative_agent_subagent() {}

#[test]
fn normative() {}
