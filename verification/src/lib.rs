//! Connection-handling core of a group-aware relay: an ordered chain of policy
//! stages through which every message of a connection passes, together with the
//! controller that admits connections and bounds their resources.

pub mod event;
pub mod registry;
pub mod message;
pub mod codec;
pub mod signature;
pub mod connection;
pub mod groups;
pub mod admission;
pub mod storage;
pub mod stages;
pub mod pipeline;
pub mod executor;
pub mod websocket_server;
pub mod laws;
