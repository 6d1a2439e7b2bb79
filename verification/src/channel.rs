//! Trusted boundary to the cross-context transport. The real carrier of
//! each mailbox is a crossbeam bounded channel of capacity one, shared
//! between the two execution contexts. Because the peer may act at any
//! moment, the contracts here state only what holds of every outcome; the
//! single-slot discipline itself is stated and proved on the
//! `mailbox::Mailbox` model.

use vstd::prelude::*;

verus! {

#[verifier::external_type_specification]
#[verifier::external_body]
#[verifier::reject_recursive_types(T)]
pub struct ExSender<T>(crossbeam_channel::Sender<T>);

#[verifier::external_type_specification]
#[verifier::external_body]
#[verifier::reject_recursive_types(T)]
pub struct ExReceiver<T>(crossbeam_channel::Receiver<T>);

/// Relies on crossbeam_channel::Sender::try_send: never blocks, and on a
/// full or disconnected channel the original message comes back inside the
/// error.
#[verifier::external_body]
pub(crate) fn mailbox_try_send<M>(tx: &crossbeam_channel::Sender<M>, m: M) -> (r: Result<(), M>)
    ensures
        (r matches Err(back) ==> back == m),
{
    match tx.try_send(m) {
        Ok(()) => Ok(()),
        Err(e) => Err(e.into_inner()),
    }
}

/// Relies on crossbeam_channel::Sender::send: blocks until the message is
/// taken or every receiver is gone; on failure the original message comes
/// back inside the error.
#[verifier::external_body]
pub(crate) fn mailbox_send<M>(tx: &crossbeam_channel::Sender<M>, m: M) -> (r: Result<(), M>)
    ensures
        (r matches Err(back) ==> back == m),
{
    match tx.send(m) {
        Ok(()) => Ok(()),
        Err(e) => Err(e.0),
    }
}

/// Relies on crossbeam_channel::Receiver::try_recv: never blocks; returns
/// the pending message if one is waiting, nothing otherwise.
#[verifier::external_body]
pub(crate) fn mailbox_try_recv<M>(rx: &crossbeam_channel::Receiver<M>) -> (r: Option<M>) {
    rx.try_recv().ok()
}

} // verus!
