//! The cross-thread call gateway and the channel primitives it stands on.
//!
//! The channel operations are calls into `crossbeam_channel`. Nothing is
//! claimed about which message a receive yields: every function that consumes
//! a received value is verified for every value the channel could hand back.

use vstd::prelude::*;

verus! {

/// crossbeam_channel's sending half, declared so values of it can stand in
/// fields and signatures. Verus sees nothing inside such a value.
#[verifier::external_type_specification]
#[verifier::external_body]
#[verifier::reject_recursive_types(T)]
pub struct ExSender<T>(crossbeam_channel::Sender<T>);

/// crossbeam_channel's receiving half, declared like the sender.
#[verifier::external_type_specification]
#[verifier::external_body]
#[verifier::reject_recursive_types(T)]
pub struct ExReceiver<T>(crossbeam_channel::Receiver<T>);

/// The error a send returns once every receiver is gone; it carries the
/// undelivered message.
#[verifier::external_type_specification]
#[verifier::external_body]
#[verifier::reject_recursive_types(T)]
pub struct ExSendError<T>(crossbeam_channel::SendError<T>);

/// The error a receive returns once the channel is empty and every sender is
/// gone.
#[verifier::external_type_specification]
#[verifier::external_body]
pub struct ExRecvError(crossbeam_channel::RecvError);

/// Relies on crossbeam_channel::unbounded: a fresh channel of unlimited
/// capacity, so a send on it never blocks for room.
pub assume_specification<T>[ crossbeam_channel::unbounded::<T> ]() -> (r: (
    crossbeam_channel::Sender<T>,
    crossbeam_channel::Receiver<T>,
));

/// Relies on crossbeam_channel::Sender::send: delivers the message unless
/// every receiver is gone, in which case it returns an error instead of
/// panicking. Which earlier messages sit before it is outside anything this
/// crate states.
pub assume_specification<T>[ crossbeam_channel::Sender::<T>::send ](
    sender: &crossbeam_channel::Sender<T>,
    msg: T,
) -> (r: Result<(), crossbeam_channel::SendError<T>>);

/// Relies on crossbeam_channel::Receiver::recv: blocks until a message
/// arrives and returns it, or returns an error once the channel is empty and
/// every sender is gone. The message's value is outside anything this crate
/// states; callers are verified for every value it could be.
pub assume_specification<T>[ crossbeam_channel::Receiver::<T>::recv ](
    receiver: &crossbeam_channel::Receiver<T>,
) -> (r: Result<T, crossbeam_channel::RecvError>);

/// Relies on crossbeam_channel::Sender's Clone: another sending half of the
/// same channel.
pub assume_specification<T>[ <crossbeam_channel::Sender<T> as Clone>::clone ](
    sender: &crossbeam_channel::Sender<T>,
) -> (r: crossbeam_channel::Sender<T>);

/// A handle that accepts a typed message from any worker thread and forwards
/// it toward the host's single callback-execution context. The host side
/// holds the paired receiver and executes the messages one at a time.
#[verifier::reject_recursive_types(M)]
pub struct Gateway<M> {
    tx: crossbeam_channel::Sender<M>,
}

/// A gateway and the receiving end the host loop drains.
pub fn create_gateway<M>() -> (r: (Gateway<M>, crossbeam_channel::Receiver<M>)) {
    let (tx, rx) = crossbeam_channel::unbounded::<M>();
    (Gateway { tx }, rx)
}

impl<M> Gateway<M> {
    /// Schedules `msg` for the host and returns as soon as scheduling
    /// succeeds; the reply comes later through the channel embedded in the
    /// message. Returns false when the host side is gone, so the caller can
    /// fail the call instead of waiting forever.
    pub fn call(&self, msg: M) -> (scheduled: bool) {
        match self.tx.send(msg) {
            Ok(()) => true,
            Err(_) => false,
        }
    }
}

} // verus!
