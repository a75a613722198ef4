# modular_agents

Agents are state machines whose scheduler runs on a thread of its own and is
woken by permits.

- `src/` is the verified library: the `State` trait and the state machines
  that step through states (`state`), the decisions of an agent's scheduler
  thread as a state machine with its proved properties (`scheduler`), the same
  for simple agents (`simple_agent`) and for programs whose states are moved
  into their thread (`agent_program`), the agent's run statuses and the
  decisions about its thread (`agent`), the permit rule (`permit_store`), and
  the message and agent-part traits (`message`, `rmbags`).
- `app/` runs those machines on real threads: the permit store that parks its
  owner, the agent, agent programs, simple agents, and a benchmark.
