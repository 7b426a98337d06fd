//! The receiving end of the reading channel: std's `mpsc::Receiver`.

use std::sync::mpsc::Receiver;
use vstd::prelude::*;
use crate::reading::AccelReading;

verus! {

#[verifier::external_type_specification]
#[verifier::external_body]
#[verifier::reject_recursive_types(T)]
pub struct ExReceiver<T>(Receiver<T>);

/// Relies on `Receiver::try_iter`: it yields, in arrival order and without
/// blocking, the readings pending at the call. What is pending depends on the
/// senders, so nothing is promised of the result.
#[verifier::external_body]
pub(crate) fn receive_pending(rx: &Receiver<AccelReading>) -> (r: Vec<AccelReading>) {
    rx.try_iter().collect()
}

} // verus!
