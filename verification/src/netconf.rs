//! The network task: keeps the network interfaces as the configuration
//! describes them.

pub mod netlink;
pub mod network;
pub mod epoll;
pub mod task;
pub mod args;
pub mod rtnl;
