//! Building blocks for running a swarm of test nodes and for talking to a
//! Kademlia service over a command queue.

pub mod address;
pub mod calls;
pub mod clock;
pub mod ident;
pub mod identity;
pub mod kademlia;
pub mod logs;
pub mod module_cfg;
pub mod node;
pub mod span;
pub mod swarm;
pub mod tmp;
pub mod trust;
