//! The bounded job queue: a multi-producer, multi-consumer channel whose
//! sending side can be closed for every handle at once.

use vstd::prelude::*;
use std::sync::Mutex;
use std::time::Duration;
use crossbeam_channel::{Receiver, Sender};

verus! {

/// The largest queue capacity a pool can be built with.
pub const MAX_QUEUE_CAPACITY: usize = 16777216;

/// `crossbeam_channel::Sender`, carried as an opaque value.
#[verifier::external_type_specification]
#[verifier::external_body]
#[verifier::reject_recursive_types(T)]
pub struct ExSender<T>(Sender<T>);

/// `crossbeam_channel::Receiver`, carried as an opaque value.
#[verifier::external_type_specification]
#[verifier::external_body]
#[verifier::reject_recursive_types(T)]
pub struct ExReceiver<T>(Receiver<T>);

/// `std::sync::Mutex`, carried as an opaque value.
#[verifier::external_type_specification]
#[verifier::external_body]
#[verifier::reject_recursive_types(T)]
pub struct ExMutex<T: ?Sized>(Mutex<T>);

/// Why a job was not taken without waiting. The job comes back.
#[derive(Debug, PartialEq, Eq)]
pub enum TrySendError<T> {
    /// The queue had no free slot and the pool could not grow.
    Full(T),
    /// The queue is closed.
    Disconnected(T),
}

/// Why a job was not taken within the time given. The job comes back.
#[derive(Debug, PartialEq, Eq)]
pub enum SendTimeoutError<T> {
    /// No slot came free in time.
    Timeout(T),
    /// The queue is closed.
    Disconnected(T),
}

/// The queue is closed. The job comes back.
#[derive(Debug, PartialEq, Eq)]
pub struct SendError<T>(pub T);

/// What a worker got when it asked the queue for a job.
#[derive(Debug, PartialEq, Eq)]
pub enum Received<T> {
    /// The next job in line.
    Job(T),
    /// Nothing arrived in the time given.
    Timeout,
    /// The queue is closed and empty.
    Disconnected,
}

impl<T> TrySendError<T> {
    /// The job that was not taken.
    pub open spec fn spec_job(self) -> T {
        match self {
            TrySendError::Full(job) => job,
            TrySendError::Disconnected(job) => job,
        }
    }

    /// The job that was not taken.
    #[verifier::when_used_as_spec(spec_job)]
    pub fn job(self) -> (job: T)
        ensures
            job == self.spec_job(),
    {
        match self {
            TrySendError::Full(job) => job,
            TrySendError::Disconnected(job) => job,
        }
    }
}

impl<T> SendTimeoutError<T> {
    /// The job that was not taken.
    pub open spec fn spec_job(self) -> T {
        match self {
            SendTimeoutError::Timeout(job) => job,
            SendTimeoutError::Disconnected(job) => job,
        }
    }

    /// The job that was not taken.
    #[verifier::when_used_as_spec(spec_job)]
    pub fn job(self) -> (job: T)
        ensures
            job == self.spec_job(),
    {
        match self {
            SendTimeoutError::Timeout(job) => job,
            SendTimeoutError::Disconnected(job) => job,
        }
    }
}

/// Calls `crossbeam_channel::bounded`, which makes a channel of `cap` slots
/// and panics where `cap` is too large to lay the slots out.
#[verifier::external_body]
pub(crate) fn channel<T>(cap: usize) -> (ends: (Sender<T>, Receiver<T>))
    requires
        cap <= MAX_QUEUE_CAPACITY,
{
    crossbeam_channel::bounded(cap)
}

/// Calls `Sender::try_send`, which queues the job at once or gives it back:
/// the error it returns holds the message it was given.
#[verifier::external_body]
pub(crate) fn offer<T>(tx: &Sender<T>, job: T) -> (r: Result<(), TrySendError<T>>)
    ensures
        r matches Err(e) ==> e.job() == job,
{
    match tx.try_send(job) {
        Ok(()) => Ok(()),
        Err(crossbeam_channel::TrySendError::Full(job)) => Err(TrySendError::Full(job)),
        Err(crossbeam_channel::TrySendError::Disconnected(job)) => Err(
            TrySendError::Disconnected(job),
        ),
    }
}

/// Calls `Sender::send`, which waits for a free slot and gives the job back
/// if the channel disconnects first: the error holds the message it was
/// given.
#[verifier::external_body]
pub(crate) fn put<T>(tx: &Sender<T>, job: T) -> (r: Result<(), SendError<T>>)
    ensures
        r matches Err(e) ==> e.0 == job,
{
    match tx.send(job) {
        Ok(()) => Ok(()),
        Err(crossbeam_channel::SendError(job)) => Err(SendError(job)),
    }
}

/// Calls `Sender::send_timeout`, which waits for a free slot for at most
/// `timeout` and gives the job back if none comes free or the channel
/// disconnects: the error holds the message it was given.
#[verifier::external_body]
pub(crate) fn put_timeout<T>(tx: &Sender<T>, job: T, timeout: Duration) -> (r: Result<
    (),
    SendTimeoutError<T>,
>)
    ensures
        r matches Err(e) ==> e.job() == job,
{
    match tx.send_timeout(job, timeout) {
        Ok(()) => Ok(()),
        Err(crossbeam_channel::SendTimeoutError::Timeout(job)) => Err(
            SendTimeoutError::Timeout(job),
        ),
        Err(crossbeam_channel::SendTimeoutError::Disconnected(job)) => Err(
            SendTimeoutError::Disconnected(job),
        ),
    }
}

/// Calls `Receiver::recv`, which waits for the next message and fails once
/// the channel is empty and disconnected. It never reports a timeout.
#[verifier::external_body]
pub(crate) fn take<T>(rx: &Receiver<T>) -> (r: Received<T>)
    ensures
        !(r is Timeout),
{
    match rx.recv() {
        Ok(job) => Received::Job(job),
        Err(crossbeam_channel::RecvError) => Received::Disconnected,
    }
}

/// Calls `Receiver::recv_timeout`, which waits for the next message for at
/// most `timeout`.
#[verifier::external_body]
pub(crate) fn take_timeout<T>(rx: &Receiver<T>, timeout: Duration) -> (r: Received<T>) {
    match rx.recv_timeout(timeout) {
        Ok(job) => Received::Job(job),
        Err(crossbeam_channel::RecvTimeoutError::Timeout) => Received::Timeout,
        Err(crossbeam_channel::RecvTimeoutError::Disconnected) => Received::Disconnected,
    }
}

/// `Receiver::len` counts the messages in the channel at the moment of the
/// call. Nothing is claimed of the number.
pub assume_specification<T>[ Receiver::<T>::len ](rx: &Receiver<T>) -> (n: usize);

/// `Receiver::is_empty` tells whether the channel holds no message at the
/// moment of the call. Nothing is claimed of the answer.
pub assume_specification<T>[ Receiver::<T>::is_empty ](rx: &Receiver<T>) -> (b: bool);

/// `Receiver::clone` gives another receiving end of the same channel.
/// Nothing is claimed of it.
pub assume_specification<T>[ <Receiver<T> as Clone>::clone ](rx: &Receiver<T>) -> (r: Receiver<T>);

/// Calls `Receiver::try_recv`, which takes the next message if one is there
/// and does not wait. An empty channel is given as `Timeout`.
#[verifier::external_body]
pub(crate) fn poll<T>(rx: &Receiver<T>) -> (r: Received<T>) {
    match rx.try_recv() {
        Ok(job) => Received::Job(job),
        Err(crossbeam_channel::TryRecvError::Empty) => Received::Timeout,
        Err(crossbeam_channel::TryRecvError::Disconnected) => Received::Disconnected,
    }
}

/// Calls `Mutex::new` on a slot that holds the sender.
#[verifier::external_body]
fn slot_new<T>(tx: Sender<T>) -> (slot: Mutex<Option<Sender<T>>>) {
    Mutex::new(Some(tx))
}

/// Calls `Mutex::lock` and copies out what the slot holds at that moment: a
/// clone of the sender, or nothing.
#[verifier::external_body]
fn slot_sender<T>(slot: &Mutex<Option<Sender<T>>>) -> (tx: Option<Sender<T>>) {
    match slot.lock() {
        Ok(guard) => guard.clone(),
        Err(poisoned) => poisoned.into_inner().clone(),
    }
}

/// Calls `Mutex::lock` and moves out what the slot holds at that moment,
/// which leaves the slot empty.
#[verifier::external_body]
fn slot_take<T>(slot: &Mutex<Option<Sender<T>>>) -> (tx: Option<Sender<T>>) {
    match slot.lock() {
        Ok(mut guard) => guard.take(),
        Err(poisoned) => poisoned.into_inner().take(),
    }
}

/// The sending side of the queue, shared by every handle of a pool. While
/// it is open it hands out senders; once closed it hands out none, and the
/// channel disconnects as soon as the senders handed out before are gone.
#[verifier::reject_recursive_types(T)]
pub struct Intake<T> {
    slot: Mutex<Option<Sender<T>>>,
}

impl<T> Intake<T> {
    /// An open intake over `tx`.
    pub fn new(tx: Sender<T>) -> Intake<T> {
        Intake { slot: slot_new(tx) }
    }

    /// A sender, if the intake is open.
    pub fn sender(&self) -> Option<Sender<T>> {
        slot_sender(&self.slot)
    }

    /// Whether the intake is open.
    pub fn is_open(&self) -> bool {
        slot_sender(&self.slot).is_some()
    }

    /// Closes the intake. Tells whether it was open until this call.
    pub fn close(&self) -> bool {
        slot_take(&self.slot).is_some()
    }
}

} // verus!
