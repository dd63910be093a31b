use vstd::prelude::*;

verus! {

/// Protocol-misuse errors: a codec operation was attempted while the
/// delegation target (the parent codec) was absent.
#[derive(Clone, Copy, Debug, PartialEq, Eq, Structural)]
pub enum SbeErr {
    ParentNotSet,
}

pub type SbeResult<T> = Result<T, SbeErr>;

} // verus!
