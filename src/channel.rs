//! The pollable channel: an unbounded crossbeam queue paired with a local
//! socket pair whose read end becomes readable whenever an item is queued.

use crate::readiness::{poll_fd_of, AsPollFd, PollFd};
use crossbeam_channel::{Receiver, Sender};
use filedescriptor::FileDescriptor;
use vstd::prelude::*;

verus! {

#[verifier::external_type_specification]
#[verifier::external_body]
#[verifier::reject_recursive_types(T)]
pub struct ExSender<T>(Sender<T>);

#[verifier::external_type_specification]
#[verifier::external_body]
#[verifier::reject_recursive_types(T)]
pub struct ExReceiver<T>(Receiver<T>);

#[verifier::external_type_specification]
#[verifier::external_body]
pub struct ExFileDescriptor(FileDescriptor);

#[verifier::external_type_specification]
#[verifier::external_body]
pub struct ExFdError(filedescriptor::Error);

/// Relies on crossbeam_channel::unbounded: a fresh queue with no bound,
/// returned as its producer and consumer handles.
pub assume_specification<T>[ crossbeam_channel::unbounded::<T> ]() -> (Sender<T>, Receiver<T>);

/// Relies on filedescriptor::socketpair: a pair of connected local stream
/// sockets, or the error of the socketpair call. The two descriptors are
/// distinct.
pub assume_specification[ filedescriptor::socketpair ]() -> (r: Result<
    (FileDescriptor, FileDescriptor),
    filedescriptor::Error,
>)
    ensures
        r is Ok ==> raw_fd_of(r->Ok_0.0) != raw_fd_of(r->Ok_0.1),
;

/// Relies on FileDescriptor::try_clone: a duplicate of the descriptor with a
/// lifetime of its own, or the error of the dup call. dup(2) gives a new
/// descriptor number, distinct from the open one it copies.
pub assume_specification[ FileDescriptor::try_clone ](fd: &FileDescriptor) -> (r: Result<
    FileDescriptor,
    filedescriptor::Error,
>)
    ensures
        r is Ok ==> raw_fd_of(r->Ok_0) != raw_fd_of(*fd),
;

/// Relies on FileDescriptor::set_non_blocking: switches the descriptor,
/// and every duplicate of it, between blocking and nonblocking mode, or
/// returns the error of the ioctl call. The handle keeps its descriptor.
pub assume_specification[ FileDescriptor::set_non_blocking ](
    fd: &mut FileDescriptor,
    non_blocking: bool,
) -> (r: Result<(), filedescriptor::Error>)
    ensures
        raw_fd_of(*final(fd)) == raw_fd_of(*old(fd)),
;

/// Why a channel operation failed.
#[derive(Clone, Copy, Debug, PartialEq, Eq)]
pub enum ChannelError {
    /// An OS call failed: creating the socket pair, writing the wake-up byte,
    /// or duplicating a descriptor.
    IoFailure,
    /// The other side of the channel is gone.
    Disconnected,
}

/// Why `try_recv` returned no item.
#[derive(Clone, Copy, Debug, PartialEq, Eq)]
pub enum TryRecvError {
    /// The queue was empty at the time of the call; senders remain.
    WouldBlock,
    /// The queue is empty and every sender is gone.
    Disconnected,
}

/// The byte that a send writes to wake the receiver.
pub const WAKE_BYTE: u8 = 0x78;

/// What became of an attempt to write the wake-up byte.
#[derive(Clone, Copy, Debug, PartialEq, Eq)]
pub enum WakeWrite {
    /// The write returned this count of bytes written.
    Written(usize),
    /// The write failed because the read end is closed.
    PeerGone,
    /// The write failed for another reason.
    Failed,
}

/// Relies on std::io::Write::write for FileDescriptor: it writes at most the
/// bytes handed to it and reports how many it wrote, or fails; a
/// `BrokenPipe` error means that the peer socket is closed. The handle keeps
/// its descriptor.
#[verifier::external_body]
fn write_wake_byte(fd: &mut FileDescriptor, buf: &[u8]) -> (r: WakeWrite)
    ensures
        r matches WakeWrite::Written(n) ==> n <= buf@.len(),
        raw_fd_of(*final(fd)) == raw_fd_of(*old(fd)),
{
    match std::io::Write::write(fd, buf) {
        Ok(n) => WakeWrite::Written(n),
        Err(e) if e.kind() == std::io::ErrorKind::BrokenPipe => WakeWrite::PeerGone,
        Err(_) => WakeWrite::Failed,
    }
}

/// The error that a send reports after the wake-up byte write, or `None`
/// when exactly one byte was written and the item may be queued.
pub open spec fn wake_write_error_of(w: WakeWrite) -> Option<ChannelError> {
    match w {
        WakeWrite::Written(n) => if n == 1 {
            None
        } else {
            Some(ChannelError::IoFailure)
        },
        WakeWrite::PeerGone => Some(ChannelError::Disconnected),
        WakeWrite::Failed => Some(ChannelError::IoFailure),
    }
}

/// What a send decides from its wake-up byte write: go on to queue the item
/// only after exactly one byte was written; a closed peer means the receiver
/// is gone; any other outcome is an I/O failure.
pub fn wake_write_error(w: &WakeWrite) -> (r: Option<ChannelError>)
    ensures
        r == wake_write_error_of(*w),
{
    match w {
        WakeWrite::Written(n) => if *n == 1 {
            None
        } else {
            Some(ChannelError::IoFailure)
        },
        WakeWrite::PeerGone => Some(ChannelError::Disconnected),
        WakeWrite::Failed => Some(ChannelError::IoFailure),
    }
}

/// What a send reports after handing the item to the queue: a refused push
/// means that the receiver is gone.
pub fn push_result(pushed: bool) -> (r: Result<(), ChannelError>)
    ensures
        r == (if pushed {
            Ok(())
        } else {
            Err(ChannelError::Disconnected)
        }),
{
    if pushed {
        Ok(())
    } else {
        Err(ChannelError::Disconnected)
    }
}

/// The descriptor number that a `FileDescriptor` owns.
pub uninterp spec fn raw_fd_of(fd: FileDescriptor) -> i32;

/// Relies on std::io::Read::read for FileDescriptor: it reads at most the
/// bytes that the buffer has room for and reports how many it read, or
/// fails; it leaves the handle, and so its descriptor number, as it was.
#[verifier::external_body]
fn read_wake_byte(fd: &mut FileDescriptor, buf: &mut Vec<u8>) -> (r: Option<usize>)
    ensures
        r matches Some(n) ==> n <= old(buf)@.len(),
        final(buf)@.len() == old(buf)@.len(),
        raw_fd_of(*final(fd)) == raw_fd_of(*old(fd)),
{
    std::io::Read::read(fd, buf.as_mut_slice()).ok()
}

/// The bytes that one drain attempt took: none when the read failed.
pub open spec fn drained_count(outcome: Option<usize>) -> nat {
    match outcome {
        Some(n) => n as nat,
        None => 0,
    }
}

/// Relies on AsRawFileDescriptor::as_raw_file_descriptor for FileDescriptor:
/// the descriptor number it owns, which it reads from the handle's field.
#[verifier::external_body]
fn raw_descriptor(fd: &FileDescriptor) -> (r: i32)
    ensures
        r == raw_fd_of(*fd),
{
    filedescriptor::AsRawFileDescriptor::as_raw_file_descriptor(fd)
}

/// Relies on crossbeam_channel::Sender::send: on an unbounded queue it never
/// blocks, and fails only when the receiver is gone.
#[verifier::external_body]
fn queue_send<T>(s: &Sender<T>, item: T) -> bool {
    s.send(item).is_ok()
}

/// Relies on crossbeam_channel::Receiver::try_recv: an item, or that the
/// queue is empty, or that it is empty and every sender is gone.
#[verifier::external_body]
fn queue_try_recv<T>(r: &Receiver<T>) -> Result<T, TryRecvError> {
    match r.try_recv() {
        Ok(item) => Ok(item),
        Err(crossbeam_channel::TryRecvError::Empty) => Err(TryRecvError::WouldBlock),
        Err(crossbeam_channel::TryRecvError::Disconnected) => Err(TryRecvError::Disconnected),
    }
}

/// Relies on Clone for crossbeam_channel::Sender: another producer handle on
/// the same queue.
#[verifier::external_body]
fn queue_sender_clone<T>(s: &Sender<T>) -> Sender<T> {
    s.clone()
}

/// The producer half of a pollable channel.
///
/// A handle is used by one thread at a time: a thread that wants to send
/// takes its own handle with `try_clone`.
#[verifier::reject_recursive_types(T)]
pub struct PollableSender<T> {
    sender: Sender<T>,
    write: FileDescriptor,
    sent: Ghost<Seq<T>>,
    signals: Ghost<nat>,
    channel: Ghost<int>,
    last_bytes: Ghost<Seq<u8>>,
    last_write: Ghost<Option<WakeWrite>>,
    last_push: Ghost<Option<bool>>,
}

impl<T> PollableSender<T> {
    /// The items that this handle has put on the queue, in order.
    pub closed spec fn sent(&self) -> Seq<T> {
        self.sent@
    }

    /// The wake-up bytes that this handle has written.
    pub closed spec fn signals(&self) -> nat {
        self.signals@
    }

    /// The channel that this handle sends on: the descriptor number of the
    /// receiver's read end when the channel was made. Every handle of one
    /// channel has the same value; a channel made after another was closed
    /// may reuse it, since the OS reuses descriptor numbers.
    pub closed spec fn channel(&self) -> int {
        self.channel@
    }

    /// The descriptor number of this handle's write end.
    pub closed spec fn write_fd(&self) -> i32 {
        raw_fd_of(self.write)
    }

    /// The bytes that the last send handed to the write end.
    pub closed spec fn last_bytes(&self) -> Seq<u8> {
        self.last_bytes@
    }

    /// What the wake-up byte write of the last send gave.
    pub closed spec fn last_write(&self) -> Option<WakeWrite> {
        self.last_write@
    }

    /// Whether the queue took the item of the last send, if it was offered.
    pub closed spec fn last_push(&self) -> Option<bool> {
        self.last_push@
    }

    /// Every item that this handle queued had its wake-up byte written first.
    pub open spec fn wf(&self) -> bool {
        self.sent().len() <= self.signals()
    }

    /// Writes one wake-up byte, then queues `item`.
    ///
    /// Never blocks: the write end is nonblocking, so a full socket buffer
    /// makes the byte write fail.
    ///
    /// If the byte cannot be written the item is not queued, so that no item
    /// waits without a wake-up. If the receiver is gone, which shows either
    /// as a closed peer socket or as a closed queue, the item is dropped and
    /// the result is `Disconnected`. The outcomes of the write and of the
    /// push are kept in `last_write` and `last_push`, and fix the result.
    pub fn send(&mut self, item: T) -> (r: Result<(), ChannelError>)
        requires
            old(self).wf(),
        ensures
            final(self).wf(),
            final(self).last_bytes() == seq![WAKE_BYTE],
            final(self).last_write() is Some,
            match wake_write_error_of(final(self).last_write()->Some_0) {
                Some(e) => {
                    &&& r == Err::<(), ChannelError>(e)
                    &&& final(self).last_push() is None
                    &&& final(self).sent() == old(self).sent()
                    &&& final(self).signals() == old(self).signals()
                },
                None => {
                    &&& final(self).last_push() is Some
                    &&& final(self).signals() == old(self).signals() + 1
                    &&& if final(self).last_push()->Some_0 {
                        &&& r == Ok::<(), ChannelError>(())
                        &&& final(self).sent() == old(self).sent().push(item)
                    } else {
                        &&& r == Err::<(), ChannelError>(ChannelError::Disconnected)
                        &&& final(self).sent() == old(self).sent()
                    }
                },
            },
            final(self).channel() == old(self).channel(),
            final(self).write_fd() == old(self).write_fd(),
    {
        let wake: Vec<u8> = vec![WAKE_BYTE];
        let written = write_wake_byte(&mut self.write, wake.as_slice());
        self.last_bytes = Ghost(wake@);
        self.last_write = Ghost(Some(written));
        self.last_push = Ghost(None);
        match wake_write_error(&written) {
            Some(e) => {
                return Err(e);
            },
            None => {},
        }
        self.signals = Ghost(self.signals@ + 1);
        let ghost pushed = self.sent@.push(item);
        let queued = queue_send(&self.sender, item);
        self.last_push = Ghost(Some(queued));
        if queued {
            self.sent = Ghost(pushed);
        }
        push_result(queued)
    }

    /// Another producer handle on the same queue, with its own duplicate of
    /// the write end of the socket pair.
    pub fn try_clone(&self) -> (r: Result<PollableSender<T>, ChannelError>)
        ensures
            match r {
                Ok(s) => {
                    &&& s.wf()
                    &&& s.sent() == Seq::<T>::empty()
                    &&& s.signals() == 0
                    &&& s.channel() == self.channel()
                    &&& s.write_fd() != self.write_fd()
                },
                Err(e) => e == ChannelError::IoFailure,
            },
    {
        match self.write.try_clone() {
            Ok(write) => {
                let sender = queue_sender_clone(&self.sender);
                Ok(
                    PollableSender {
                        sender,
                        write,
                        sent: Ghost(Seq::empty()),
                        signals: Ghost(0),
                        channel: Ghost(self.channel@),
                        last_bytes: Ghost(Seq::empty()),
                        last_write: Ghost(None),
                        last_push: Ghost(None),
                    },
                )
            },
            Err(_) => Err(ChannelError::IoFailure),
        }
    }
}

/// The consumer half of a pollable channel.
#[verifier::reject_recursive_types(T)]
pub struct PollableReceiver<T> {
    receiver: Receiver<T>,
    read: FileDescriptor,
    received: Ghost<Seq<T>>,
    drained: Ghost<nat>,
    channel: Ghost<int>,
    last_drain: Ghost<Option<Option<usize>>>,
}

impl<T> PollableReceiver<T> {
    /// The items that this handle has taken from the queue, in order.
    pub closed spec fn received(&self) -> Seq<T> {
        self.received@
    }

    /// The wake-up bytes that this handle has drained.
    pub closed spec fn drained(&self) -> nat {
        self.drained@
    }

    /// The channel that this handle receives from: the descriptor number of
    /// its read end when the channel was made (see `PollableSender::channel`).
    pub closed spec fn channel(&self) -> int {
        self.channel@
    }

    /// The descriptor number of the read end of the socket pair.
    pub closed spec fn read_fd(&self) -> i32 {
        raw_fd_of(self.read)
    }

    /// What the drain attempt of the last successful receive read: the
    /// count of bytes, or `None` when the read failed.
    pub closed spec fn last_drain(&self) -> Option<Option<usize>> {
        self.last_drain@
    }

    /// At most one wake-up byte was drained for each item taken.
    pub open spec fn wf(&self) -> bool {
        self.drained() <= self.received().len()
    }

    /// Takes the next item without waiting; on success drains at most one
    /// wake-up byte, ignoring a failed read, which at worst leaves one extra
    /// wake-up.
    ///
    /// A call that returns no item changes nothing.
    pub fn try_recv(&mut self) -> (r: Result<T, TryRecvError>)
        requires
            old(self).wf(),
        ensures
            final(self).wf(),
            match r {
                Ok(item) => {
                    &&& final(self).received() == old(self).received().push(item)
                    &&& final(self).last_drain() is Some
                    &&& drained_count(final(self).last_drain()->Some_0) <= 1
                    &&& final(self).drained() == old(self).drained() + drained_count(
                        final(self).last_drain()->Some_0,
                    )
                },
                Err(_) => {
                    &&& final(self).received() == old(self).received()
                    &&& final(self).drained() == old(self).drained()
                    &&& final(self).last_drain() == old(self).last_drain()
                },
            },
            final(self).channel() == old(self).channel(),
            final(self).read_fd() == old(self).read_fd(),
    {
        let item = match queue_try_recv(&self.receiver) {
            Ok(item) => item,
            Err(e) => return Err(e),
        };
        self.received = Ghost(self.received@.push(item));
        let mut byte: Vec<u8> = vec![0u8];
        let outcome = read_wake_byte(&mut self.read, &mut byte);
        self.last_drain = Ghost(Some(outcome));
        match outcome {
            Some(n) => {
                self.drained = Ghost(self.drained@ + n as nat);
            },
            None => {},
        }
        Ok(item)
    }
}

impl<T> AsPollFd for PollableReceiver<T> {
    fn as_poll_fd(&self) -> (r: PollFd)
        ensures
            r.fd == self.read_fd(),
    {
        poll_fd_of(raw_descriptor(&self.read))
    }
}

/// Makes a fresh queue and a fresh wake-up socket pair whose two ends are
/// nonblocking, and returns the sender and the receiver over them; fails with
/// `IoFailure`, leaving nothing behind, when the socket pair cannot be made
/// or set up.
pub fn pollable_channel<T>() -> (r: Result<(PollableSender<T>, PollableReceiver<T>), ChannelError>)
    ensures
        match r {
            Ok((s, rx)) => {
                &&& s.wf()
                &&& rx.wf()
                &&& s.sent() == Seq::<T>::empty()
                &&& s.signals() == 0
                &&& rx.received() == Seq::<T>::empty()
                &&& rx.drained() == 0
                &&& s.channel() == rx.channel()
                &&& rx.channel() == rx.read_fd()
                &&& s.write_fd() != rx.read_fd()
            },
            Err(e) => e == ChannelError::IoFailure,
        },
{
    match filedescriptor::socketpair() {
        Ok((read, write)) => {
            let mut read = read;
            let mut write = write;
            let ghost channel = raw_fd_of(read) as int;
            match read.set_non_blocking(true) {
                Ok(()) => {},
                Err(_) => {
                    return Err(ChannelError::IoFailure);
                },
            }
            match write.set_non_blocking(true) {
                Ok(()) => {},
                Err(_) => {
                    return Err(ChannelError::IoFailure);
                },
            }
            let (sender, receiver) = crossbeam_channel::unbounded();
            Ok(
                (
                    PollableSender {
                        sender,
                        write,
                        sent: Ghost(Seq::empty()),
                        signals: Ghost(0),
                        channel: Ghost(channel),
                        last_bytes: Ghost(Seq::empty()),
                        last_write: Ghost(None),
                        last_push: Ghost(None),
                    },
                    PollableReceiver {
                        receiver,
                        read,
                        received: Ghost(Seq::empty()),
                        drained: Ghost(0),
                        channel: Ghost(channel),
                        last_drain: Ghost(None),
                    },
                ),
            )
        },
        Err(_) => Err(ChannelError::IoFailure),
    }
}

/// The wake-up bytes that a set of senders has written.
pub open spec fn total_signals<T>(senders: Seq<PollableSender<T>>) -> int
    decreases senders.len(),
{
    if senders.len() == 0 {
        0
    } else {
        total_signals(senders.drop_last()) + senders.last().signals()
    }
}

/// The items that a set of senders has queued.
pub open spec fn total_sent<T>(senders: Seq<PollableSender<T>>) -> int
    decreases senders.len(),
{
    if senders.len() == 0 {
        0
    } else {
        total_sent(senders.drop_last()) + senders.last().sent().len()
    }
}

/// Over any set of sender handles and the receiver, the wake-up bytes that
/// these handles wrote and did not drain are at least the items that they
/// queued and did not take.
pub proof fn lemma_backlog_covers_queue<T>(senders: Seq<PollableSender<T>>, rx: PollableReceiver<T>)
    requires
        forall|i: int| 0 <= i < senders.len() ==> #[trigger] senders[i].wf(),
        rx.wf(),
    ensures
        total_signals(senders) - rx.drained() >= total_sent(senders) - rx.received().len(),
{
    lemma_signals_cover_sent(senders);
}

proof fn lemma_signals_cover_sent<T>(senders: Seq<PollableSender<T>>)
    requires
        forall|i: int| 0 <= i < senders.len() ==> #[trigger] senders[i].wf(),
    ensures
        total_signals(senders) >= total_sent(senders),
    decreases senders.len(),
{
    if senders.len() > 0 {
        let rest = senders.drop_last();
        assert forall|i: int| 0 <= i < rest.len() implies #[trigger] rest[i].wf() by {
            assert(rest[i] == senders[i]);
        }
        lemma_signals_cover_sent(rest);
        assert(senders.last().wf());
    }
}

} // verus!
