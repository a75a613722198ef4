//! The parts an agent is split into: message stores (what cannot be shared
//! between threads, built from a configuration), data pools (what can), the
//! scheduler and the action set.
use vstd::prelude::*;

verus! {

/// The thread-local message stores of an agent, built from a configuration.
pub trait MessageStore<Config, Store> where Config: Send + 'static, Store: MessageStoreConfig<Config> {

}

/// How a message store is built from a configuration.
pub trait MessageStoreConfig<Config> {

}

/// The data an agent shares between threads.
pub trait DataPool<T> where T: Send + Sync + 'static {

}

/// The scheduler of an agent.
pub trait Scheduler<T, U> {

}

/// The actions an agent can take.
pub trait ActionSet {

}

} // verus!
