//! A message-oriented TCP communication library: length-prefixed binary
//! messages, a FIFO hand-off queue, a bounded worker-pool model, and the
//! framing codec with its flush policy.  The socket and thread plumbing
//! lives outside the library and drives the decision functions defined here.

pub mod basic;
pub mod codec;
pub mod logger;
pub mod message;
pub mod pool;
pub mod processing;
pub mod queue;
pub mod session;
pub mod traits;
