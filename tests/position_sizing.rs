use zakaz::position_sizing::{calculate_default_stop_loss, calculate_position_size, validate_stop_loss};
use zakaz::types::{OrderSide, PRICE_SCALE};

fn price(whole: f64) -> i64 {
    (whole * PRICE_SCALE as f64).round() as i64
}

#[test]
fn test_position_size_long() {
    let risk = price(100.0);
    let entry = price(50.0);
    let stop = price(48.0);
    let size = calculate_position_size(risk, entry, stop, OrderSide::Long).unwrap();
    assert_eq!(size, 50);
}

#[test]
fn test_position_size_short() {
    let risk = price(100.0);
    let entry = price(50.0);
    let stop = price(52.0);
    let size = calculate_position_size(risk, entry, stop, OrderSide::Short).unwrap();
    assert_eq!(size, 50);
}

#[test]
fn test_invalid_stop_long() {
    let risk = price(100.0);
    let entry = price(50.0);
    let stop = price(51.0);
    let result = calculate_position_size(risk, entry, stop, OrderSide::Long);
    assert!(result.is_err());
}

#[test]
fn test_stop_validation() {
    let entry = price(100.0);
    let atr = price(2.0);
    assert!(validate_stop_loss(entry, price(99.8), OrderSide::Long, atr).is_ok());
    assert!(validate_stop_loss(entry, price(99.995), OrderSide::Long, atr).is_err());
    assert!(validate_stop_loss(entry, price(99.0), OrderSide::Long, atr).is_err());
}

#[test]
fn test_default_stop_calculation() {
    let entry = price(100.0);
    let atr = price(2.0);
    assert_eq!(calculate_default_stop_loss(entry, OrderSide::Long, atr), price(99.8));
    assert_eq!(calculate_default_stop_loss(entry, OrderSide::Short, atr), price(100.2));
}

#[test]
fn position_size_rounds_down() {
    // 100 / 3 = 33.33 shares
    assert_eq!(calculate_position_size(price(100.0), price(50.0), price(47.0), OrderSide::Long), Ok(33));
}

#[test]
fn position_size_below_one_share_fails() {
    assert!(calculate_position_size(price(1.0), price(50.0), price(48.0), OrderSide::Long).is_err());
    assert!(calculate_position_size(price(-5.0), price(50.0), price(48.0), OrderSide::Long).is_err());
}

#[test]
fn position_size_short_with_stop_below_fails() {
    assert!(calculate_position_size(price(100.0), price(50.0), price(49.0), OrderSide::Short).is_err());
    assert!(calculate_position_size(price(100.0), price(50.0), price(50.0), OrderSide::Short).is_err());
}

#[test]
fn stop_validation_edges() {
    let entry = price(100.0);
    let atr = price(2.0);
    // exactly one cent and exactly fifteen percent of the ATR are accepted
    assert!(validate_stop_loss(entry, price(99.99), OrderSide::Long, atr).is_ok());
    assert!(validate_stop_loss(entry, price(99.7), OrderSide::Long, atr).is_ok());
    assert!(validate_stop_loss(entry, price(99.6999), OrderSide::Long, atr).is_err());
    assert!(validate_stop_loss(entry, price(100.2), OrderSide::Short, atr).is_ok());
    assert!(validate_stop_loss(entry, price(99.8), OrderSide::Short, atr).is_err());
}

#[test]
fn default_stop_rounds_toward_entry() {
    // ten percent of 0.0015 is 0.00015, held as 1 unit
    assert_eq!(calculate_default_stop_loss(price(10.0), OrderSide::Long, 15), price(10.0) - 1);
    assert_eq!(calculate_default_stop_loss(price(10.0), OrderSide::Short, 15), price(10.0) + 1);
}
