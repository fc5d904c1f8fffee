use vstd::prelude::*;

verus! {

#[verifier::external_type_specification]
#[verifier::external_body]
#[verifier::reject_recursive_types(T)]
pub struct ExSender<T>(crossbeam::channel::Sender<T>);

#[verifier::external_type_specification]
#[verifier::external_body]
#[verifier::reject_recursive_types(T)]
pub struct ExReceiver<T>(crossbeam::channel::Receiver<T>);

#[verifier::external_type_specification]
#[verifier::external_body]
pub struct ExPathBuf(std::path::PathBuf);

/// Relies on crossbeam's `channel::unbounded`: a fresh unbounded channel,
/// as its sending and its receiving end.
pub assume_specification<T>[ crossbeam::channel::unbounded::<T> ]() -> (
    crossbeam::channel::Sender<T>,
    crossbeam::channel::Receiver<T>,
);

/// Relies on crossbeam's `Sender::clone`: another handle on the same channel.
pub assume_specification<T>[ <crossbeam::channel::Sender<T> as Clone>::clone ](
    s: &crossbeam::channel::Sender<T>,
) -> crossbeam::channel::Sender<T>;

/// What a wait on the receiving end of a channel brought.
pub enum Received<T> {
    /// The next value in the channel.
    Value(T),
    /// Nothing came within the wait.
    Nothing,
    /// The channel is empty and every sending end is gone.
    Closed,
}

/// Relies on crossbeam's `Sender::send`, which on an unbounded channel never
/// blocks, and which, when every receiving end is gone, hands the value back
/// inside its `SendError`.
#[verifier::external_body]
pub(crate) fn send_value<T>(tx: &crossbeam::channel::Sender<T>, value: T) -> (r: Result<(), T>)
    ensures
        r is Err ==> r->Err_0 == value,
{
    match tx.send(value) {
        Ok(()) => Ok(()),
        Err(e) => Err(e.0),
    }
}

/// Relies on crossbeam's `Receiver::recv_timeout`: the next value, or the
/// reason why none came within `millis` milliseconds.
#[verifier::external_body]
pub(crate) fn receive_within<T>(rx: &crossbeam::channel::Receiver<T>, millis: u64) -> (r: Received<T>)
{
    match rx.recv_timeout(std::time::Duration::from_millis(millis)) {
        Ok(v) => Received::Value(v),
        Err(crossbeam::channel::RecvTimeoutError::Timeout) => Received::Nothing,
        Err(crossbeam::channel::RecvTimeoutError::Disconnected) => Received::Closed,
    }
}

} // verus!
