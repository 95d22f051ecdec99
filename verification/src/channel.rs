//! The receiving end of the channels that background work reports through.

use vstd::prelude::*;

verus! {

/// `std::sync::mpsc::Receiver`, carried by the state structs.
#[verifier::external_type_specification]
#[verifier::external_body]
#[verifier::reject_recursive_types(T)]
pub struct ExReceiver<T>(std::sync::mpsc::Receiver<T>);

/// `Receiver::try_recv`: a value that was sent and not yet received, if
/// there is one right now. Which value comes back, and whether one does,
/// depends on the other threads; nothing is stated of it.
#[verifier::external_body]
pub fn try_receive<T>(rx: &std::sync::mpsc::Receiver<T>) -> (r: Option<T>) {
    rx.try_recv().ok()
}

} // verus!
