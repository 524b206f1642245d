//! Operations that need USB calls on their way.
use vstd::prelude::*;

verus! {

/// Where an operation stands: it needs a call to be made and answered, or it
/// is done.
#[derive(Debug)]
pub enum Step<C, T> {
    /// The call that is to be made next.
    Call(C),
    /// What the operation came to.
    Done(T),
}

} // verus!
