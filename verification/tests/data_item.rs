use ohlcv::data_item::DataItem;
use ohlcv::data_item::DataItemBuilder;
use ohlcv::errors::ErrorKind;
use ohlcv::traits::Close;
use ohlcv::traits::High;
use ohlcv::traits::Low;
use ohlcv::traits::Open;
use ohlcv::traits::Volume;

// Prices and volumes below are tick counts at one tenth per tick, so e.g.
// 149 sits just under 150 and 251 just over 250.

fn assert_valid((o, h, l, c, v): (i64, i64, i64, i64, i64)) {
    let result = DataItem::builder().open(o).high(h).low(l).close(c).volume(v).build();

    assert!(result.is_ok());
    println!("{:#?}", result.unwrap());
}

fn assert_invalid((o, h, l, c, v): (i64, i64, i64, i64, i64)) {
    let result = DataItem::builder().open(o).high(h).low(l).close(c).volume(v).build();
    assert!(result.is_err());
}

#[test]
fn test_builder() {
    let valid_records = vec![
        // open, high, low , close, volume
        (200, 250, 150, 210, 75000),
        (100, 100, 100, 100, 100),
        (0, 0, 0, 0, 0),
    ];
    for record in valid_records {
        assert_valid(record)
    }

    let invalid_records = vec![
        // open, high, low , close, volume
        (-10, 250, 150, 210, 75000),
        (200, -10, 150, 210, 75000),
        (200, 250, -10, 210, 75000),
        (200, 250, 150, -10, 75000),
        (200, 250, 150, 210, -10),
        (149, 250, 150, 210, 75000),
        (251, 250, 150, 210, 75000),
        (200, 250, 150, 149, 75000),
        (200, 250, 150, 251, 75000),
        (200, 150, 250, 210, 75000),
    ];
    for record in invalid_records {
        assert_invalid(record)
    }
}

#[test]
fn accessors_return_given_values() {
    let item = DataItem::builder()
        .open(200)
        .high(250)
        .low(150)
        .close(210)
        .volume(75000)
        .build()
        .unwrap();
    assert_eq!(item.open(), 200);
    assert_eq!(item.high(), 250);
    assert_eq!(item.low(), 150);
    assert_eq!(item.close(), 210);
    assert_eq!(item.volume(), 75000);
}

#[test]
fn flat_bar_is_valid() {
    let item = DataItem::builder()
        .open(100)
        .high(100)
        .low(100)
        .close(100)
        .volume(100)
        .build()
        .unwrap();
    assert_eq!(item.open(), 100);
    assert_eq!(item.close(), 100);
}

#[test]
fn zero_bar_is_valid() {
    let result = DataItem::builder().open(0).high(0).low(0).close(0).volume(0).build();
    assert!(result.is_ok());
}

#[test]
fn negative_volume_is_invalid() {
    let result = DataItem::builder().open(200).high(250).low(150).close(210).volume(-10).build();
    assert_eq!(result.unwrap_err(), ErrorKind::DataItemInvalid);
}

#[test]
fn open_below_low_is_invalid() {
    let result = DataItem::builder().open(149).high(250).low(150).close(210).volume(75000).build();
    assert_eq!(result.unwrap_err(), ErrorKind::DataItemInvalid);
}

#[test]
fn high_below_low_is_invalid() {
    let result = DataItem::builder().open(200).high(150).low(250).close(210).volume(75000).build();
    assert_eq!(result.unwrap_err(), ErrorKind::DataItemInvalid);
}

#[test]
fn close_above_high_is_invalid() {
    let result = DataItem::builder().open(200).high(250).low(150).close(251).volume(75000).build();
    assert_eq!(result.unwrap_err(), ErrorKind::DataItemInvalid);
}

#[test]
fn negative_low_is_invalid() {
    let result = DataItem::builder().open(200).high(250).low(-10).close(210).volume(75000).build();
    assert_eq!(result.unwrap_err(), ErrorKind::DataItemInvalid);
}

#[test]
fn missing_volume_is_incomplete() {
    let result = DataItem::builder().open(200).high(250).low(150).close(210).build();
    assert_eq!(result.unwrap_err(), ErrorKind::DataItemIncomplete);
}

#[test]
fn empty_builder_is_incomplete() {
    let result = DataItemBuilder::new().build();
    assert_eq!(result.unwrap_err(), ErrorKind::DataItemIncomplete);
}

#[test]
fn incomplete_reported_before_invalid() {
    // The four values present already break the relations; the unset close
    // must still win and be reported as incompleteness.
    let result = DataItem::builder().open(200).high(150).low(250).volume(-10).build();
    assert_eq!(result.unwrap_err(), ErrorKind::DataItemIncomplete);
}

#[test]
fn setter_overwrites_previous_value() {
    let item = DataItem::builder()
        .open(9999)
        .open(200)
        .high(250)
        .low(150)
        .close(210)
        .volume(75000)
        .build()
        .unwrap();
    assert_eq!(item.open(), 200);
}

#[test]
fn setter_overwrite_decides_outcome() {
    // The first volume is negative; overwriting it must rescue the bar.
    let result = DataItem::builder()
        .open(200)
        .high(250)
        .low(150)
        .close(210)
        .volume(-10)
        .volume(75000)
        .build();
    assert!(result.is_ok());
}

#[test]
fn setter_order_does_not_matter() {
    let a = DataItem::builder()
        .open(200)
        .high(250)
        .low(150)
        .close(210)
        .volume(75000)
        .build()
        .unwrap();
    let b = DataItem::builder()
        .volume(75000)
        .close(210)
        .low(150)
        .high(250)
        .open(200)
        .build()
        .unwrap();
    assert_eq!(a.open(), b.open());
    assert_eq!(a.high(), b.high());
    assert_eq!(a.low(), b.low());
    assert_eq!(a.close(), b.close());
    assert_eq!(a.volume(), b.volume());
}

#[test]
fn accessors_are_stable() {
    let item = DataItem::builder()
        .open(200)
        .high(250)
        .low(150)
        .close(210)
        .volume(75000)
        .build()
        .unwrap();
    assert_eq!(item.open(), item.open());
    assert_eq!(item.high(), item.high());
    assert_eq!(item.low(), item.low());
    assert_eq!(item.close(), item.close());
    assert_eq!(item.volume(), item.volume());
    let copy = item.clone();
    assert_eq!(copy.open(), item.open());
    assert_eq!(copy.volume(), item.volume());
}
