//! Session-lifecycle engine for relaying an audio asset as an RTP stream:
//! the session registry, the stage graph of one relay, the end-of-stream
//! probe and the lock-guarded handle that ties them together.

pub mod graph;
pub mod handle;
pub mod pipeline;
pub mod probe;
pub mod registry;
