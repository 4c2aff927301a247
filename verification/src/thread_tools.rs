//! Cross-thread handoff primitives: the one-shot settling cell and the
//! unbounded channel pairs that background tasks use to stream freshly
//! fetched items to the owner thread, both built on `std::sync::mpsc`.
//!
//! Nothing here blocks the owner thread: the owner polls cells and drains
//! channels without waiting (the one blocking receive, `mpsc_recv`, is
//! offered for callers that opt into waiting). Nothing here panics either: a
//! producer that was dropped without settling leaves its cell pending
//! forever, which a caller must read as "still loading", never as failure.
use vstd::prelude::*;

verus! {

/// Declares std's mpsc `Sender`, opaque to the verifier.
#[verifier::external_type_specification]
#[verifier::external_body]
#[verifier::reject_recursive_types(T)]
pub struct ExSender<T>(std::sync::mpsc::Sender<T>);

/// Declares std's mpsc `Receiver`, opaque to the verifier.
#[verifier::external_type_specification]
#[verifier::external_body]
#[verifier::reject_recursive_types(T)]
pub struct ExReceiver<T>(std::sync::mpsc::Receiver<T>);

/// Relies on `std::sync::mpsc::channel`: a connected sender/receiver pair for
/// an unbounded queue.
#[verifier::external_body]
pub(crate) fn mpsc_channel<T>() -> (std::sync::mpsc::Sender<T>, std::sync::mpsc::Receiver<T>) {
    std::sync::mpsc::channel()
}

/// Relies on std's `Sender::clone`: one more sender feeding the same queue.
#[verifier::external_body]
pub(crate) fn mpsc_sender_clone<T>(s: &std::sync::mpsc::Sender<T>) -> std::sync::mpsc::Sender<T> {
    s.clone()
}

/// Relies on std's `Sender::send`: queues the value without blocking, and
/// hands it back only when the receiving half is gone.
#[verifier::external_body]
pub(crate) fn mpsc_send<T>(s: &std::sync::mpsc::Sender<T>, v: T) -> (r: Result<(), T>)
    ensures
        r matches Err(x) ==> x == v,
{
    match s.send(v) {
        Ok(()) => Ok(()),
        Err(std::sync::mpsc::SendError(x)) => Err(x),
    }
}

/// Relies on std's `Receiver::try_recv`: the oldest queued value without
/// blocking, or `None` when the queue is empty or disconnected.
#[verifier::external_body]
pub(crate) fn mpsc_try_recv<T>(r: &std::sync::mpsc::Receiver<T>) -> Option<T> {
    r.try_recv().ok()
}

/// Relies on std's `Receiver::recv`: blocks for the next value, `None` once
/// every sender is gone.
#[verifier::external_body]
pub(crate) fn mpsc_recv<T>(r: &std::sync::mpsc::Receiver<T>) -> Option<T> {
    r.recv().ok()
}

/// The receiving half of a stream channel, with the empty value the owner
/// keeps beside it.
#[verifier::reject_recursive_types(T)]
pub struct Downloader<T: Default> {
    inner: T,
    pub(crate) receiver: std::sync::mpsc::Receiver<T>,
}

impl<T: Default> Downloader<T> {
    pub fn new() -> (Downloader<T>, std::sync::mpsc::Sender<T>) {
        let (sender, receiver) = mpsc_channel();
        let downloader = Downloader { inner: T::default(), receiver };
        (downloader, sender)
    }
}

/// The sending half of a stream channel.
#[verifier::reject_recursive_types(T)]
pub struct Uploader<T: Default> {
    inner: T,
    pub(crate) sender: std::sync::mpsc::Sender<T>,
}

impl<T: Default> Uploader<T> {
    pub fn new() -> (Uploader<T>, std::sync::mpsc::Receiver<T>) {
        let (sender, receiver) = mpsc_channel();
        let uploader = Uploader { inner: T::default(), sender };
        (uploader, receiver)
    }
}

/// Both halves of a two-way channel between the owner thread and background
/// tasks.
#[verifier::reject_recursive_types(T)]
pub struct Communicator<T: Default> {
    inner: T,
    uploader: Uploader<T>,
    uploader_receiver: std::sync::mpsc::Receiver<T>,
    downloader: Downloader<T>,
    downloader_sender: std::sync::mpsc::Sender<T>,
}

impl<T: Default> Communicator<T> {
    pub fn new() -> Communicator<T> {
        let (downloader, sender) = Downloader::new();
        let (uploader, receiver) = Uploader::new();
        Communicator {
            inner: T::default(),
            uploader,
            uploader_receiver: receiver,
            downloader,
            downloader_sender: sender,
        }
    }

    /// One more sender that background tasks may keep.
    pub fn downloader_sender_clone(&self) -> std::sync::mpsc::Sender<T> {
        mpsc_sender_clone(&self.downloader_sender)
    }

    pub fn downloader_receiver(&self) -> &std::sync::mpsc::Receiver<T> {
        &self.downloader.receiver
    }
}

/// Drains up to `max` currently queued values, oldest first, without
/// blocking; what arrives later is picked up by a later call.
pub fn drain_available<T>(r: &std::sync::mpsc::Receiver<T>, max: usize) -> (out: Vec<T>)
    ensures
        out@.len() <= max,
{
    let mut out: Vec<T> = Vec::new();
    let mut i: usize = 0;
    while i < max
        invariant
            i <= max,
            out@.len() <= i,
        decreases max - i,
    {
        match mpsc_try_recv(r) {
            Some(v) => out.push(v),
            None => {
                return out;
            },
        }
        i = i + 1;
    }
    out
}

/// The one producer of a settling cell. Settling consumes it, so each
/// producer settles its cell at most once; since a cell hands its producer
/// out at most once, each cell is settled at most once.
#[verifier::reject_recursive_types(T)]
pub struct SPromiseSender<T> {
    sender: std::sync::mpsc::Sender<T>,
}

impl<T> SPromiseSender<T> {
    /// Settles the connected cell with the value. A send after the cell was
    /// dropped, or after a settlement was already observed, goes nowhere.
    pub fn send(self, value: T) {
        let _ = mpsc_send(&self.sender, value);
    }
}

/// A one-shot settling cell: a cached value of last resort, the settled value
/// once one was observed, the queue a pending settlement arrives on, and,
/// until it is handed to a producer task, the one producer that can settle
/// the cell.
///
/// Once a settlement is observed it never reverts and its value never
/// changes: observing it closes the queue, so nothing can arrive after it. A
/// producer dropped without settling leaves the cell pending forever.
#[verifier::reject_recursive_types(T)]
pub struct SPromise<T> {
    value: T,
    settled: Option<T>,
    pending: Option<std::sync::mpsc::Receiver<T>>,
    sender: Option<SPromiseSender<T>>,
}

impl<T> SPromise<T> {
    /// The cached value, distinct from whatever the cell may settle to.
    pub closed spec fn spec_value(self) -> T {
        self.value
    }

    /// Whether a settlement has been observed.
    pub closed spec fn is_settled(self) -> bool {
        self.settled is Some
    }

    /// The observed settlement.
    pub closed spec fn spec_settled(self) -> T {
        self.settled->0
    }

    /// Whether an unobserved settlement may still arrive.
    pub closed spec fn has_pending(self) -> bool {
        self.pending is Some
    }

    /// Whether a promise was made: a settlement was observed or may still
    /// arrive.
    pub open spec fn has_promise(self) -> bool {
        self.has_pending() || self.is_settled()
    }

    /// Whether the cell still holds the one producer of its promise.
    pub closed spec fn has_sender(self) -> bool {
        self.sender is Some
    }

    /// A cell with a fresh promise over the type's empty value, keeping both
    /// halves inside.
    pub fn new() -> (r: SPromise<T>)
        where T: Default
        ensures
            r.has_promise(),
            !r.is_settled(),
            r.has_sender(),
    {
        Self::create_promise(T::default())
    }

    /// A cell with a fresh promise, keeping both halves inside.
    pub fn create_promise(value: T) -> (r: SPromise<T>)
        ensures
            r.spec_value() == value,
            r.has_promise(),
            !r.is_settled(),
            r.has_sender(),
    {
        let (sender, receiver) = mpsc_channel();
        SPromise {
            value,
            settled: None,
            pending: Some(receiver),
            sender: Some(SPromiseSender { sender }),
        }
    }

    /// A cell with a fresh promise whose producer goes straight to the
    /// caller, for handing to a background task.
    pub fn make_promise(value: T) -> (r: (SPromise<T>, SPromiseSender<T>))
        ensures
            r.0.spec_value() == value,
            r.0.has_promise(),
            !r.0.is_settled(),
            !r.0.has_sender(),
    {
        let (sender, receiver) = mpsc_channel();
        (
            SPromise { value, settled: None, pending: Some(receiver), sender: None },
            SPromiseSender { sender },
        )
    }

    /// A cell that only carries a value: no promise, nothing to wait for.
    pub fn make_no_promise(value: T) -> (r: SPromise<T>)
        ensures
            r.spec_value() == value,
            !r.has_promise(),
            !r.is_settled(),
            !r.has_sender(),
    {
        SPromise { value, settled: None, pending: None, sender: None }
    }

    /// A plain value-only cell, for exercising a consumer without a task.
    pub fn test(value: T) -> (r: SPromise<T>)
        ensures
            r.spec_value() == value,
            !r.has_promise(),
            !r.is_settled(),
            !r.has_sender(),
    {
        SPromise { value, settled: None, pending: None, sender: None }
    }

    /// The still-pending half, as a presence probe.
    pub fn spromise_ref(&self) -> (r: Option<&std::sync::mpsc::Receiver<T>>)
        ensures
            r is Some <==> self.has_pending(),
    {
        self.pending.as_ref()
    }

    /// Whether a promise was made on this cell.
    pub fn promised(&self) -> (r: bool)
        ensures
            r == self.has_promise(),
    {
        self.pending.is_some() || self.settled.is_some()
    }

    pub fn sender_ref(&self) -> (r: &Option<SPromiseSender<T>>)
        ensures
            r is Some <==> self.has_sender(),
    {
        &self.sender
    }

    /// Takes the producer out, if the cell still holds it. A later call
    /// returns `None`: at most one producer ever leaves the cell, so the
    /// promise can be settled at most once.
    pub fn take_sender(&mut self) -> (r: Option<SPromiseSender<T>>)
        ensures
            final(self).spec_value() == old(self).spec_value(),
            final(self).has_promise() == old(self).has_promise(),
            final(self).is_settled() == old(self).is_settled(),
            final(self).is_settled() ==> final(self).spec_settled() == old(self).spec_settled(),
            !final(self).has_sender(),
            r is Some <==> old(self).has_sender(),
            took_sender(*old(self), *final(self), r),
    {
        self.sender.take()
    }

    /// Observes the cell without blocking: the settled value once the
    /// producer's settlement has arrived, `None` while the cell is pending or
    /// never made a promise. The first observed settlement is final: later
    /// polls return the same value and change nothing.
    pub fn poll(&mut self) -> (r: Option<&T>)
        ensures
            polled(*old(self), *final(self), obs(r)),
            old(self).is_settled() ==> *final(self) == *old(self) && (r matches Some(v) && *v
                == old(self).spec_settled()),
    {
        if self.settled.is_none() {
            let received = match &self.pending {
                Some(receiver) => mpsc_try_recv(receiver),
                None => None,
            };
            match received {
                Some(v) => {
                    self.settled = Some(v);
                    // close the queue: nothing can arrive past the settlement
                    self.pending = None;
                },
                None => {},
            }
        }
        self.settled.as_ref()
    }

    /// The already observed settlement, read-only: `Some` exactly when a
    /// `poll` has observed one.
    pub fn ready_ref(&self) -> (r: Option<&T>)
        ensures
            r is Some <==> self.is_settled(),
            r matches Some(v) ==> *v == self.spec_settled(),
    {
        self.settled.as_ref()
    }

    pub fn add_value(&mut self, value: T)
        ensures
            final(self).spec_value() == value,
            final(self).has_promise() == old(self).has_promise(),
            final(self).has_sender() == old(self).has_sender(),
            final(self).is_settled() == old(self).is_settled(),
            final(self).is_settled() ==> final(self).spec_settled() == old(self).spec_settled(),
    {
        self.value = value;
    }

    pub fn set_value(&mut self, value: T)
        ensures
            final(self).spec_value() == value,
            final(self).has_promise() == old(self).has_promise(),
            final(self).has_sender() == old(self).has_sender(),
            final(self).is_settled() == old(self).is_settled(),
            final(self).is_settled() ==> final(self).spec_settled() == old(self).spec_settled(),
    {
        self.value = value;
    }

    pub fn mut_value(&mut self) -> (r: &mut T)
        ensures
            *r == old(self).spec_value(),
            final(self).spec_value() == *final(r),
            final(self).has_promise() == old(self).has_promise(),
            final(self).has_sender() == old(self).has_sender(),
            final(self).is_settled() == old(self).is_settled(),
            final(self).is_settled() ==> final(self).spec_settled() == old(self).spec_settled(),
    {
        &mut self.value
    }

    pub fn ref_value(&self) -> (r: &T)
        ensures
            *r == self.spec_value(),
    {
        &self.value
    }

    pub fn quick_value(&self) -> (r: &T)
        ensures
            *r == self.spec_value(),
    {
        &self.value
    }

    /// The pending half, by reference.
    pub fn quick_inner(&self) -> (r: &Option<std::sync::mpsc::Receiver<T>>)
        ensures
            r is Some <==> self.has_pending(),
    {
        &self.pending
    }
}

/// What one observation sees, as a value.
pub open spec fn obs<T>(r: Option<&T>) -> Option<T> {
    match r {
        Some(v) => Some(*v),
        None => None,
    }
}

/// What `poll` does to a cell: the cached value, the producer and the promise
/// stay; a cell observed settled never changes again; the observation is the
/// settlement exactly when one was observed.
pub open spec fn polled<T>(pre: SPromise<T>, post: SPromise<T>, r: Option<T>) -> bool {
    &&& post.spec_value() == pre.spec_value()
    &&& post.has_sender() == pre.has_sender()
    &&& post.has_promise() == pre.has_promise()
    &&& (pre.is_settled() ==> post == pre)
    &&& (r is Some <==> post.is_settled())
    &&& (r matches Some(v) ==> v == post.spec_settled())
    &&& (r is None ==> post == pre)
    &&& !pre.has_promise() ==> r is None
}

/// What one cell keeps over a poll: everything except that a pending
/// settlement may now be observed.
pub open spec fn same_cell_modulo_poll<T>(pre: SPromise<T>, post: SPromise<T>) -> bool {
    &&& post.spec_value() == pre.spec_value()
    &&& post.has_sender() == pre.has_sender()
    &&& post.has_promise() == pre.has_promise()
    &&& (pre.is_settled() ==> post == pre)
}

/// First write wins: once a poll has observed a settlement, every later poll
/// observes the same value and changes nothing — the value observed after the
/// first settlement can never change.
pub proof fn lemma_first_write_wins<T>(
    s0: SPromise<T>,
    s1: SPromise<T>,
    s2: SPromise<T>,
    v1: T,
    r2: Option<T>,
)
    requires
        polled(s0, s1, Some(v1)),
        polled(s1, s2, r2),
    ensures
        r2 == Some(v1),
        s2 == s1,
{
}

/// What `take_sender` does to a cell, as a relation between the cell before
/// the call, the cell after it, and what the call returned.
pub open spec fn took_sender<T>(
    pre: SPromise<T>,
    post: SPromise<T>,
    r: Option<SPromiseSender<T>>,
) -> bool {
    &&& post.spec_value() == pre.spec_value()
    &&& post.has_promise() == pre.has_promise()
    &&& !post.has_sender()
    &&& (r is Some <==> pre.has_sender())
}

/// Single settlement, the producer half: the producer leaves a cell at most
/// once, so at most one party can ever settle the promise, and settling
/// consumes the producer, so it settles at most once.
pub proof fn lemma_single_settlement<T>(
    s0: SPromise<T>,
    s1: SPromise<T>,
    s2: SPromise<T>,
    r1: Option<SPromiseSender<T>>,
    r2: Option<SPromiseSender<T>>,
)
    requires
        took_sender(s0, s1, r1),
        took_sender(s1, s2, r2),
    ensures
        r1 is Some ==> r2 is None,
        s2.spec_value() == s0.spec_value(),
{
}

} // verus!
