//! The result channel between the probers and the collector.

use vstd::prelude::*;
use crate::probe::ProbeResult;
use tokio::sync::mpsc::{Receiver, Sender};

verus! {

/// `tokio::sync::mpsc::Receiver`, the receiving end of a bounded channel. It
/// is carried as it is; nothing of what it holds is visible to the proofs.
#[verifier::external_type_specification]
#[verifier::external_body]
#[verifier::reject_recursive_types(T)]
pub struct ExReceiver<T>(Receiver<T>);

/// `tokio::sync::mpsc::Sender`, a sending end of a bounded channel, carried
/// as it is.
#[verifier::external_type_specification]
#[verifier::external_body]
#[verifier::reject_recursive_types(T)]
pub struct ExSender<T>(Sender<T>);

/// The number of results that the channel of `tx` was made to buffer: what
/// `tokio::sync::mpsc::Sender::max_capacity` returns for it, which stays the
/// same for as long as the channel lives.
pub uninterp spec fn buffer_size(tx: Sender<ProbeResult>) -> nat;

/// `tokio::sync::mpsc::channel`: the two ends of a new bounded channel that
/// buffers up to `capacity` results. The call panics on a capacity of 0 or
/// above an eighth of `usize::MAX`, which the precondition leaves out.
#[verifier::external_body]
pub(crate) fn bounded(capacity: usize) -> (ends: (Sender<ProbeResult>, Receiver<ProbeResult>))
    requires
        0 < capacity <= usize::MAX / 8,
    ensures
        buffer_size(ends.0) == capacity,
{
    tokio::sync::mpsc::channel(capacity)
}

/// `tokio::sync::mpsc::Receiver::try_recv`: the next buffered result, or
/// `None` when the channel is empty at this moment or closed. Which of them
/// comes back depends on what the senders have done, so nothing is claimed of
/// it.
#[verifier::external_body]
pub(crate) fn try_recv(rx: &mut Receiver<ProbeResult>) -> (next: Option<ProbeResult>)
{
    match rx.try_recv() {
        Ok(result) => Some(result),
        Err(_) => None,
    }
}

/// Takes results out of the channel until it has none to give or `limit` of
/// them have been taken, and returns them in the order in which they came
/// out.
pub(crate) fn drain(rx: &mut Receiver<ProbeResult>, limit: usize) -> (delivered: Vec<ProbeResult>)
    ensures
        delivered@.len() <= limit,
{
    let mut delivered: Vec<ProbeResult> = Vec::new();
    while delivered.len() < limit
        invariant
            delivered@.len() <= limit,
        decreases limit - delivered@.len(),
    {
        let next = try_recv(rx);
        if !take_next(&mut delivered, next) {
            break ;
        }
    }
    delivered
}

/// One step of a drain, for whatever the channel answered: a result is put
/// behind those taken before and the drain goes on; without one, what was
/// taken stays as it is and the drain ends.
pub fn take_next(taken: &mut Vec<ProbeResult>, next: Option<ProbeResult>) -> (more: bool)
    ensures
        more == next is Some,
        final(taken)@ == (match next {
            Some(result) => old(taken)@.push(result),
            None => old(taken)@,
        }),
{
    match next {
        Some(result) => {
            taken.push(result);
            true
        },
        None => false,
    }
}

} // verus!
