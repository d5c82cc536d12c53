//! Events that are waited for through epoll.

pub mod set;
pub mod token;
pub mod manager;
pub mod layout;
pub mod uint;
pub mod laws;
