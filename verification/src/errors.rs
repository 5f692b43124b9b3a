use vstd::prelude::*;

verus! {

/// Why `DataItemBuilder::build` refused to produce a `DataItem`.
#[derive(Clone, Copy, Debug, PartialEq, Eq, Structural)]
pub enum ErrorKind {
    /// At least one of the five fields was never set. Checked before
    /// consistency, so a caller learns of a missing field first.
    DataItemIncomplete,
    /// All five fields were set, but they violate the bar relations.
    DataItemInvalid,
}

} // verus!
