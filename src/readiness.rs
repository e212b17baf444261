//! Descriptor readiness records and the blocking wait over them.

use vstd::prelude::*;

verus! {

/// The "readable" bit of poll(2) on Linux, the BSDs and macOS.
pub const POLLIN: i16 = 0x1;

/// The "error" bit of poll(2) on Linux, the BSDs and macOS.
pub const POLLERR: i16 = 0x8;

/// The "hang-up" bit of poll(2) on Linux, the BSDs and macOS.
pub const POLLHUP: i16 = 0x10;

/// The "invalid descriptor" bit of poll(2) on Linux, the BSDs and macOS.
pub const POLLNVAL: i16 = 0x20;

/// The interest that every watched stream registers: readable or errored.
pub open spec fn watch_interest() -> i16 {
    (POLLIN | POLLERR) as i16
}

/// One entry of a poll array: the descriptor, the events of interest and the
/// events that the last wait observed.
#[derive(Clone, Copy, Debug, PartialEq, Eq)]
pub struct PollFd {
    pub fd: i32,
    pub events: i16,
    pub revents: i16,
}

impl PollFd {
    /// What the last wait observed: whether the descriptor is readable, and
    /// whether it reported an error, a hang-up or an invalid state.
    pub fn observed(&self) -> (r: (bool, bool))
        ensures
            r.0 == (self.revents & POLLIN != 0),
            r.1 == (self.revents & (POLLERR | POLLHUP | POLLNVAL) != 0),
    {
        (self.revents & POLLIN != 0, self.revents & (POLLERR | POLLHUP | POLLNVAL) != 0)
    }
}

/// The record that watches a raw descriptor for reading or errors, with no
/// event observed yet.
pub fn poll_fd_of(fd: i32) -> (r: PollFd)
    ensures
        r == (PollFd { fd, events: watch_interest(), revents: 0 }),
{
    PollFd { fd, events: POLLIN | POLLERR, revents: 0 }
}

/// A stream that can sit in a poll array.
pub trait AsPollFd {
    /// The record that watches this stream for reading or errors, with no
    /// event observed yet.
    fn as_poll_fd(&self) -> (r: PollFd)
        ensures
            r.events == watch_interest(),
            r.revents == 0,
    ;
}

impl AsPollFd for i32 {
    fn as_poll_fd(&self) -> (r: PollFd)
        ensures
            r == (PollFd { fd: *self, events: watch_interest(), revents: 0 }),
    {
        poll_fd_of(*self)
    }
}

/// Whether the wait observed some event on some record.
pub open spec fn some_observed(records: Seq<PollFd>) -> bool {
    exists|i: int| 0 <= i < records.len() && #[trigger] records[i].revents != 0
}

/// How a single poll call ended.
#[derive(Clone, Copy, Debug, PartialEq, Eq)]
pub enum WaitOutcome {
    /// The call returned; some record observed an event.
    Ready,
    /// A signal interrupted the call before any descriptor was ready.
    Interrupted,
    /// The call failed for another reason.
    Failed,
}

/// Relies on filedescriptor::poll with no timeout: it hands each record's
/// descriptor and events to poll(2), which blocks until one entry is
/// satisfied and writes only the observed events; a successful return counts
/// the satisfied entries, those with observed events. An `Interrupted` error
/// is poll's EINTR.
#[verifier::external_body]
fn wait_on(records: &mut Vec<PollFd>) -> (r: WaitOutcome)
    ensures
        final(records)@.len() == old(records)@.len(),
        forall|i: int|
            0 <= i < old(records)@.len() ==> {
                &&& #[trigger] final(records)@[i].fd == old(records)@[i].fd
                &&& final(records)@[i].events == old(records)@[i].events
            },
        r == WaitOutcome::Ready ==> some_observed(final(records)@),
{
    let mut raw: Vec<libc::pollfd> = records
        .iter()
        .map(|p| libc::pollfd { fd: p.fd, events: p.events, revents: p.revents })
        .collect();
    let res = filedescriptor::poll(&mut raw, None);
    for (p, r) in records.iter_mut().zip(raw.iter()) {
        p.revents = r.revents;
    }
    match res {
        Ok(_) => WaitOutcome::Ready,
        Err(filedescriptor::Error::Poll(e)) if e.kind() == std::io::ErrorKind::Interrupted => {
            WaitOutcome::Interrupted
        },
        Err(_) => WaitOutcome::Failed,
    }
}

/// Blocks, with no timeout, until at least one record observes an event,
/// and updates the observed events of each record in place. `Ready` says
/// that some record observed an event; `Interrupted` comes only when a signal
/// ended the wait first, and `Failed` only when poll itself failed (too many
/// descriptors, no memory). The caller waits again on `Interrupted`.
pub fn poll_for_read(records: &mut Vec<PollFd>) -> (r: WaitOutcome)
    ensures
        final(records)@.len() == old(records)@.len(),
        forall|i: int|
            0 <= i < old(records)@.len() ==> {
                &&& #[trigger] final(records)@[i].fd == old(records)@[i].fd
                &&& final(records)@[i].events == old(records)@[i].events
            },
        r == WaitOutcome::Ready ==> some_observed(final(records)@),
{
    wait_on(records)
}

} // verus!
