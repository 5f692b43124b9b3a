//! A validated, immutable OHLCV bar.
//!
//! [`data_item::DataItemBuilder`] collects the five fields of an
//! open/high/low/close/volume observation in any order and, on
//! [`data_item::DataItemBuilder::build`], either proves them plausible and
//! produces an immutable [`data_item::DataItem`] or reports exactly why not.
//! Prices and volume are fixed-point tick counts (`i64`): the validation
//! relations only ever need order and sign, and the caller picks the tick
//! size.

pub mod data_item;
pub mod errors;
pub mod traits;

pub use data_item::DataItem;
pub use data_item::DataItemBuilder;
pub use data_item::Field;
pub use errors::ErrorKind;
pub use traits::Close;
pub use traits::High;
pub use traits::Low;
pub use traits::Open;
pub use traits::Volume;
