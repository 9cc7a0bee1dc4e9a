use zakaz::error::AppError;
use zakaz::orders::{calculate_position_value, calculate_reward_risk_ratio, calculate_risk, OrderTemplateStorage};
use zakaz::template::{OrderTemplate, DEFAULT_RISK_PER_TRADE};
use zakaz::types::{OrderSide, OrderTemplateStatus, TimeInForce, TradingModel, PRICE_SCALE};

fn price(whole: f64) -> i64 {
    (whole * PRICE_SCALE as f64).round() as i64
}

fn template(name: &str, side: OrderSide, quantity: i64, limit: f64, stop: f64) -> OrderTemplate {
    OrderTemplate::new(
        name.to_string(),
        "AAPL".to_string(),
        side,
        quantity,
        price(limit),
        price(stop),
        TimeInForce::Day,
        TradingModel::Breakout,
    )
}

#[test]
fn test_order_template_validation() {
    let mut template = OrderTemplate::new(
        "Test Long".to_string(),
        "AAPL".to_string(),
        OrderSide::Long,
        100,
        price(150.0),
        price(145.0),
        TimeInForce::Day,
        TradingModel::Breakout,
    );
    assert!(template.validate().is_ok());
    template.stop_price = price(155.0);
    assert!(template.validate().is_err());

    let mut short_template = OrderTemplate::new(
        "Test Short".to_string(),
        "AAPL".to_string(),
        OrderSide::Short,
        100,
        price(150.0),
        price(155.0),
        TimeInForce::GTC,
        TradingModel::Bounce,
    );
    assert!(short_template.validate().is_ok());
    short_template.stop_price = price(145.0);
    assert!(short_template.validate().is_err());
}

#[test]
fn test_risk_calculations() {
    let template = OrderTemplate::new(
        "Test".to_string(),
        "AAPL".to_string(),
        OrderSide::Long,
        100,
        price(150.0),
        price(145.0),
        TimeInForce::Day,
        TradingModel::default(),
    );
    assert_eq!(calculate_risk(&template), price(500.0) as i128);
    assert_eq!(calculate_position_value(&template), price(15000.0) as i128);
    let rr_ratio = calculate_reward_risk_ratio(&template, price(160.0));
    assert_eq!(rr_ratio, price(2.0) as i128);
}

#[test]
fn validation_rejects_non_positive_values() {
    assert!(template("q", OrderSide::Long, 0, 150.0, 145.0).validate().is_err());
    assert!(template("l", OrderSide::Long, 10, 0.0, 145.0).validate().is_err());
    assert!(template("s", OrderSide::Short, 10, 150.0, 0.0).validate().is_err());
    assert!(template("eq", OrderSide::Long, 10, 150.0, 150.0).validate().is_err());
}

#[test]
fn new_template_defaults() {
    let t = template("n", OrderSide::Long, 10, 150.0, 145.0);
    assert_eq!(t.status, OrderTemplateStatus::Inactive);
    assert_eq!(t.risk_per_trade, DEFAULT_RISK_PER_TRADE);
    assert!(t.parent_order_id.is_none() && t.stop_order_id.is_none());
    assert!(t.can_activate());
    assert!(!t.is_active());
    assert_eq!(t.id.len(), 36);
    let other = template("n", OrderSide::Long, 10, 150.0, 145.0);
    assert_ne!(t.id, other.id);
}

#[test]
fn technical_stop_takes_precedence() {
    let mut t = template("t", OrderSide::Long, 10, 150.0, 145.0);
    assert_eq!(t.get_stop_loss(), price(145.0));
    t.technical_stop_price = Some(price(146.5));
    assert_eq!(t.get_stop_loss(), price(146.5));
}

#[test]
fn reward_risk_without_risk_is_zero() {
    let t = template("z", OrderSide::Long, 10, 150.0, 150.0);
    assert_eq!(calculate_reward_risk_ratio(&t, price(160.0)), 0);
}

#[test]
fn storage_update_and_remove() {
    let mut storage = OrderTemplateStorage::new();
    let a = template("a", OrderSide::Long, 10, 150.0, 145.0);
    let b = template("b", OrderSide::Short, 10, 150.0, 155.0);
    let a_id = a.id.clone();
    let b_id = b.id.clone();
    storage.add_template(a);
    storage.add_template(b);
    assert_eq!(storage.get_all_templates().len(), 2);

    let mut changed = storage.get_template(&a_id).unwrap().snapshot();
    changed.quantity = 20;
    assert!(storage.update_template(changed).is_ok());
    assert_eq!(storage.get_template(&a_id).unwrap().quantity, 20);

    let stranger = template("c", OrderSide::Long, 1, 2.0, 1.0);
    assert!(matches!(storage.update_template(stranger), Err(AppError::NotFound(_))));

    assert!(storage.remove_template(&b_id).is_ok());
    assert!(storage.get_template(&b_id).is_none());
    assert!(matches!(storage.remove_template(&b_id), Err(AppError::NotFound(_))));
    assert_eq!(storage.get_all_templates().len(), 1);
}
