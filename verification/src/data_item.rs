use vstd::prelude::*;

use crate::errors::ErrorKind;
use crate::traits::Close;
use crate::traits::High;
use crate::traits::Low;
use crate::traits::Open;
use crate::traits::Volume;

verus! {

/// The relations that a physically plausible bar satisfies: `l` is the least
/// of the four prices, `h` the greatest, and both `l` and `vol` are
/// non-negative. The other three prices need no separate sign check: they are
/// bounded below by `l`.
pub open spec fn valid_values(o: i64, h: i64, l: i64, c: i64, vol: i64) -> bool {
    l <= o && l <= c && l <= h && h >= o && h >= c && vol >= 0 && l >= 0
}

/// One immutable OHLCV observation. Prices and volume are fixed-point tick
/// counts; the validation relations only need their order and sign, so the
/// caller is free to pick the tick size.
///
/// A `DataItem` can only be obtained from a successful
/// [`DataItemBuilder::build`], which establishes [`DataItem::inv`]; nothing
/// can change the fields afterwards.
#[derive(Debug, Clone)]
pub struct DataItem {
    open: i64,
    high: i64,
    low: i64,
    close: i64,
    volume: i64,
}

impl DataItem {
    /// Every constructed `DataItem` satisfies the bar relations.
    pub open spec fn inv(&self) -> bool {
        valid_values(
            self.open_spec(),
            self.high_spec(),
            self.low_spec(),
            self.close_spec(),
            self.volume_spec(),
        )
    }

    /// Starts a fresh builder with all five fields unset.
    pub fn builder() -> (b: DataItemBuilder)
        ensures
            b.slot(Field::Open) is None,
            b.slot(Field::High) is None,
            b.slot(Field::Low) is None,
            b.slot(Field::Close) is None,
            b.slot(Field::Volume) is None,
    {
        DataItemBuilder::new()
    }
}

impl Open for DataItem {
    closed spec fn open_spec(&self) -> i64 {
        self.open
    }

    fn open(&self) -> i64 {
        self.open
    }
}

impl High for DataItem {
    closed spec fn high_spec(&self) -> i64 {
        self.high
    }

    fn high(&self) -> i64 {
        self.high
    }
}

impl Low for DataItem {
    closed spec fn low_spec(&self) -> i64 {
        self.low
    }

    fn low(&self) -> i64 {
        self.low
    }
}

impl Close for DataItem {
    closed spec fn close_spec(&self) -> i64 {
        self.close
    }

    fn close(&self) -> i64 {
        self.close
    }
}

impl Volume for DataItem {
    closed spec fn volume_spec(&self) -> i64 {
        self.volume
    }

    fn volume(&self) -> i64 {
        self.volume
    }
}

/// Names one of the five builder slots, so that one law can speak about any
/// slot and about pairs of distinct slots.
pub enum Field {
    Open,
    High,
    Low,
    Close,
    Volume,
}

/// A transient staging structure: five optional slots, set in any order and
/// freely overwritten, then consumed by [`DataItemBuilder::build`].
pub struct DataItemBuilder {
    open: Option<i64>,
    high: Option<i64>,
    low: Option<i64>,
    close: Option<i64>,
    volume: Option<i64>,
}

impl DataItemBuilder {
    /// The current content of one slot.
    pub closed spec fn slot(self, f: Field) -> Option<i64> {
        match f {
            Field::Open => self.open,
            Field::High => self.high,
            Field::Low => self.low,
            Field::Close => self.close,
            Field::Volume => self.volume,
        }
    }

    /// The builder after one setter call: slot `f` holds `val`, every other
    /// slot is kept.
    pub closed spec fn spec_set(self, f: Field, val: i64) -> DataItemBuilder {
        match f {
            Field::Open => DataItemBuilder { open: Some(val), ..self },
            Field::High => DataItemBuilder { high: Some(val), ..self },
            Field::Low => DataItemBuilder { low: Some(val), ..self },
            Field::Close => DataItemBuilder { close: Some(val), ..self },
            Field::Volume => DataItemBuilder { volume: Some(val), ..self },
        }
    }

    /// All five slots hold a value.
    pub open spec fn is_complete(self) -> bool {
        self.slot(Field::Open) is Some && self.slot(Field::High) is Some
            && self.slot(Field::Low) is Some && self.slot(Field::Close) is Some
            && self.slot(Field::Volume) is Some
    }

    /// The five collected values satisfy the bar relations.
    pub open spec fn is_consistent(self) -> bool
        recommends
            self.is_complete(),
    {
        valid_values(
            self.slot(Field::Open).unwrap(),
            self.slot(Field::High).unwrap(),
            self.slot(Field::Low).unwrap(),
            self.slot(Field::Close).unwrap(),
            self.slot(Field::Volume).unwrap(),
        )
    }

    /// A fresh builder with all five fields unset.
    pub fn new() -> (b: Self)
        ensures
            b.slot(Field::Open) is None,
            b.slot(Field::High) is None,
            b.slot(Field::Low) is None,
            b.slot(Field::Close) is None,
            b.slot(Field::Volume) is None,
    {
        Self { open: None, high: None, low: None, close: None, volume: None }
    }

    /// Stores `val` as the opening price, overwriting any previous value.
    pub fn open(self, val: i64) -> (b: Self)
        ensures
            b == self.spec_set(Field::Open, val),
            b.slot(Field::Open) == Some(val),
            forall|g: Field| g != Field::Open ==> b.slot(g) == self.slot(g),
    {
        Self { open: Some(val), ..self }
    }

    /// Stores `val` as the highest price, overwriting any previous value.
    pub fn high(self, val: i64) -> (b: Self)
        ensures
            b == self.spec_set(Field::High, val),
            b.slot(Field::High) == Some(val),
            forall|g: Field| g != Field::High ==> b.slot(g) == self.slot(g),
    {
        Self { high: Some(val), ..self }
    }

    /// Stores `val` as the lowest price, overwriting any previous value.
    pub fn low(self, val: i64) -> (b: Self)
        ensures
            b == self.spec_set(Field::Low, val),
            b.slot(Field::Low) == Some(val),
            forall|g: Field| g != Field::Low ==> b.slot(g) == self.slot(g),
    {
        Self { low: Some(val), ..self }
    }

    /// Stores `val` as the closing price, overwriting any previous value.
    pub fn close(self, val: i64) -> (b: Self)
        ensures
            b == self.spec_set(Field::Close, val),
            b.slot(Field::Close) == Some(val),
            forall|g: Field| g != Field::Close ==> b.slot(g) == self.slot(g),
    {
        Self { close: Some(val), ..self }
    }

    /// Stores `val` as the traded volume, overwriting any previous value.
    pub fn volume(self, val: i64) -> (b: Self)
        ensures
            b == self.spec_set(Field::Volume, val),
            b.slot(Field::Volume) == Some(val),
            forall|g: Field| g != Field::Volume ==> b.slot(g) == self.slot(g),
    {
        Self { volume: Some(val), ..self }
    }

    /// Law: a setter overwrites. Setting the same slot twice leaves only the
    /// most recent value in effect, whatever was stored first.
    pub proof fn lemma_set_idempotent(self, f: Field, v1: i64, v2: i64)
        ensures
            self.spec_set(f, v1).spec_set(f, v2) == self.spec_set(f, v2),
    {
    }

    /// Law: setters for two distinct slots commute. Together with
    /// [`DataItemBuilder::lemma_set_idempotent`], the builder reached by any
    /// sequence of setter calls is determined by the last value given for
    /// each slot, not by the order of the calls.
    pub proof fn lemma_set_commutes(self, f: Field, g: Field, v: i64, w: i64)
        requires
            f != g,
        ensures
            self.spec_set(f, v).spec_set(g, w) == self.spec_set(g, w).spec_set(f, v),
    {
    }

    /// Law: two builders that agree on all five slots are the same builder,
    /// so the outcome of [`DataItemBuilder::build`] depends on the final
    /// slot values alone.
    pub proof fn lemma_slots_determine_builder(self, other: Self)
        requires
            self.slot(Field::Open) == other.slot(Field::Open),
            self.slot(Field::High) == other.slot(Field::High),
            self.slot(Field::Low) == other.slot(Field::Low),
            self.slot(Field::Close) == other.slot(Field::Close),
            self.slot(Field::Volume) == other.slot(Field::Volume),
        ensures
            self == other,
    {
    }

    /// Consumes the builder and attempts to produce a validated bar.
    ///
    /// Completeness is checked first: a builder with an unset field fails
    /// with [`ErrorKind::DataItemIncomplete`] whatever the other fields
    /// hold. A complete builder succeeds exactly when the collected values
    /// satisfy [`valid_values`]; otherwise it fails with
    /// [`ErrorKind::DataItemInvalid`]. On success the bar returns exactly
    /// the collected values through its accessors.
    pub fn build(self) -> (r: Result<DataItem, ErrorKind>)
        ensures
            !self.is_complete() ==> r == Err::<DataItem, ErrorKind>(ErrorKind::DataItemIncomplete),
            self.is_complete() && !self.is_consistent() ==> r == Err::<DataItem, ErrorKind>(
                ErrorKind::DataItemInvalid,
            ),
            self.is_complete() && self.is_consistent() ==> (r matches Ok(item)
                && item.open_spec() == self.slot(Field::Open).unwrap()
                && item.high_spec() == self.slot(Field::High).unwrap()
                && item.low_spec() == self.slot(Field::Low).unwrap()
                && item.close_spec() == self.slot(Field::Close).unwrap()
                && item.volume_spec() == self.slot(Field::Volume).unwrap()
                && item.inv()),
    {
        if let (Some(o), Some(h), Some(l), Some(c), Some(vol)) =
            (self.open, self.high, self.low, self.close, self.volume) {
            if l <= o && l <= c && l <= h && h >= o && h >= c && vol >= 0 && l >= 0 {
                Ok(DataItem { open: o, high: h, low: l, close: c, volume: vol })
            } else {
                Err(ErrorKind::DataItemInvalid)
            }
        } else {
            Err(ErrorKind::DataItemIncomplete)
        }
    }
}

} // verus!

