use vstd::prelude::*;

verus! {

/// Read access to an opening price. A consumer that only needs the open can
/// depend on this capability alone instead of on the whole bar type.
pub trait Open {
    /// The opening price, for use in specifications.
    spec fn open_spec(&self) -> i64;

    /// Returns the opening price.
    fn open(&self) -> (price: i64)
        ensures
            price == self.open_spec(),
    ;
}

/// Read access to the highest price of the period.
pub trait High {
    /// The highest price, for use in specifications.
    spec fn high_spec(&self) -> i64;

    /// Returns the highest price.
    fn high(&self) -> (price: i64)
        ensures
            price == self.high_spec(),
    ;
}

/// Read access to the lowest price of the period.
pub trait Low {
    /// The lowest price, for use in specifications.
    spec fn low_spec(&self) -> i64;

    /// Returns the lowest price.
    fn low(&self) -> (price: i64)
        ensures
            price == self.low_spec(),
    ;
}

/// Read access to a closing price.
pub trait Close {
    /// The closing price, for use in specifications.
    spec fn close_spec(&self) -> i64;

    /// Returns the closing price.
    fn close(&self) -> (price: i64)
        ensures
            price == self.close_spec(),
    ;
}

/// Read access to the traded volume of the period.
pub trait Volume {
    /// The traded volume, for use in specifications.
    spec fn volume_spec(&self) -> i64;

    /// Returns the traded volume.
    fn volume(&self) -> (vol: i64)
        ensures
            vol == self.volume_spec(),
    ;
}

} // verus!
