//! Control of Belkin WeMo switches and sockets: the decisions, parsers and
//! protocol messages of the controller, verified.

pub mod text;
pub mod error;
pub mod xml;
pub mod location;
pub mod weectrl;
pub mod rpc;
pub mod device;
pub mod cache;
pub mod registry;
pub mod discovery;
pub mod resubscribe;

pub use weectrl::{DeviceInfo, DiscoveryMode, Icon, Model, State, StateNotification};
