//! Control-plane protocol of a distributed compilation cluster: framed
//! binary messages, a buffering message channel and scheduler discovery.
//! The byte-level logic is verified; sockets and clocks are driven by callers.

pub mod wire;
pub mod job;
pub mod msg;
pub mod message;
pub mod frame;
pub mod channel;
pub mod discovery;

pub use job::{CompileJob, Language};
pub use channel::{MessageChannel, ReadOutcome};
pub use discovery::{DiscoveryAction, DiscoveryEvent, ScheduleDiscoverer};
pub use message::{Message, Msg, MsgType};
