//! A background worker that serves a command stream and a polling tick.
//!
//! One worker owns the receiving end of a channel. Producers push commands
//! through cloned senders; the worker hands each command to its handler, polls
//! the handler whenever the channel stays idle for one polling interval, and
//! stops on the first shutdown signal.

pub mod channel;
pub mod envelope;
pub mod model;
pub mod util;
pub mod worker;
