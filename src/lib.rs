//! Verified core of a service reachability checker: the data model, the
//! checker's decisions, the dispatcher's plan and the notifier's state machine.
//! Probing, threads, the channel and the sink are driven by the caller.
pub mod service;
pub mod checker;
pub mod dispatcher;
pub mod notifier;
