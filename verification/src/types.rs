pub mod githubevent;
pub mod workflow;
