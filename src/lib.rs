//! A multi-producer message queue that a readiness-polling event loop can
//! watch next to its sockets, through a wake-up socket pair.

pub mod channel;
pub mod readiness;

pub use channel::{pollable_channel, ChannelError, PollableReceiver, PollableSender, TryRecvError};
pub use readiness::{poll_fd_of, poll_for_read, AsPollFd, PollFd, WaitOutcome, POLLERR, POLLHUP, POLLIN, POLLNVAL};
