use zakaz::client::{next_bracket_step, AccountType, BracketStep, IBClient, PlacementOutcome};
use zakaz::error::AppError;
use zakaz::template::OrderTemplate;
use zakaz::types::{OrderAction, OrderSide, OrderTemplateStatus, TimeInForce, TradingModel, PRICE_SCALE};

fn template() -> OrderTemplate {
    OrderTemplate::new(
        "T".to_string(),
        "AAPL".to_string(),
        OrderSide::Long,
        100,
        150 * PRICE_SCALE,
        145 * PRICE_SCALE,
        TimeInForce::Day,
        TradingModel::Breakout,
    )
}

fn connected_client() -> IBClient {
    let mut client = IBClient::new();
    client.connect_paper(Ok(())).unwrap();
    client
}

fn maps(client: &IBClient, id: i32) -> bool {
    client.active_orders.iter().any(|o| o.order_id == id)
}

/// Runs the placement steps against scripted broker answers and returns
/// the calls made and the outcome.
fn place(answers: &[Result<(), String>]) -> (Vec<&'static str>, PlacementOutcome) {
    let mut calls = Vec::new();
    let mut step = BracketStep::PlaceParent;
    let mut k = 0;
    loop {
        let name = match &step {
            BracketStep::PlaceParent => "place_parent",
            BracketStep::PlaceStop => "place_stop",
            BracketStep::CancelParent(_) => "cancel_parent",
            BracketStep::Done(_) => break,
        };
        calls.push(name);
        step = next_bracket_step(step, answers[k].clone());
        k += 1;
    }
    match step {
        BracketStep::Done(o) => (calls, o),
        _ => unreachable!(),
    }
}

#[test]
fn bracket_failure_cancels_parent_once() {
    let mut client = connected_client();
    let id = client.create_template(template()).unwrap();
    let plan = client.activate_template(&id).unwrap();
    let (parent, stop) = (plan.parent.order_id, plan.stop.order_id);

    let (calls, outcome) = place(&[Ok(()), Err("rejected".to_string()), Ok(())]);
    assert_eq!(calls, vec!["place_parent", "place_stop", "cancel_parent"]);
    assert!(matches!(&outcome, PlacementOutcome::StopRejected(e) if e == "rejected"));

    let result = client.complete_activation(&id, outcome);
    assert!(matches!(result, Err(AppError::IBConnection(_))));
    let t = client.get_template(&id).unwrap();
    assert_eq!(t.status, OrderTemplateStatus::Failed);
    assert!(t.parent_order_id.is_none() && t.stop_order_id.is_none());
    assert!(!maps(&client, parent) && !maps(&client, stop));
}

#[test]
fn bracket_success_maps_both_orders() {
    let mut client = connected_client();
    let id = client.create_template(template()).unwrap();
    let plan = client.activate_template(&id).unwrap();
    assert_eq!(plan.parent.order_id, 1000);
    assert_eq!(plan.stop.order_id, 1001);
    assert_eq!(plan.stop.parent_id, 1000);
    assert_eq!(plan.parent.action, OrderAction::Buy);
    assert_eq!(plan.stop.action, OrderAction::Sell);
    assert_eq!(plan.parent.order_type, "LMT");
    assert_eq!(plan.stop.order_type, "STP");
    assert_eq!(plan.parent.tif, "DAY");
    assert_eq!(plan.stop.tif, "GTC");
    assert!(!plan.parent.transmit && plan.stop.transmit);
    assert_eq!(client.get_template(&id).unwrap().status, OrderTemplateStatus::Activating);

    let (calls, outcome) = place(&[Ok(()), Ok(())]);
    assert_eq!(calls, vec!["place_parent", "place_stop"]);
    assert!(client.complete_activation(&id, outcome).is_ok());
    let t = client.get_template(&id).unwrap();
    assert_eq!(t.status, OrderTemplateStatus::Active);
    assert_eq!((t.parent_order_id, t.stop_order_id), (Some(1000), Some(1001)));
    assert!(t.activated_at.is_some());
    assert!(maps(&client, 1000) && maps(&client, 1001));

    // the next bracket takes fresh ids
    let other = client.create_template(template()).unwrap();
    assert_eq!(client.activate_template(&other).unwrap().parent.order_id, 1002);
}

#[test]
fn parent_rejection_makes_no_cancel() {
    let (calls, outcome) = place(&[Err("no".to_string())]);
    assert_eq!(calls, vec!["place_parent"]);
    assert!(matches!(outcome, PlacementOutcome::ParentRejected(_)));
}

#[test]
fn active_template_cannot_be_deleted() {
    let mut client = connected_client();
    let id = client.create_template(template()).unwrap();
    client.activate_template(&id).unwrap();
    client.complete_activation(&id, PlacementOutcome::Placed).unwrap();
    assert!(matches!(client.delete_template(&id), Err(AppError::Validation(_))));
    assert!(matches!(client.activate_template(&id), Err(AppError::Validation(_))));

    let plan = client.deactivate_template(&id).unwrap();
    assert_eq!(plan.parent_order_id, Some(1000));
    assert!(client.complete_deactivation(&id, None, None).is_ok());
    let t = client.get_template(&id).unwrap();
    assert_eq!(t.status, OrderTemplateStatus::Inactive);
    assert!(!maps(&client, 1000) && !maps(&client, 1001));
    assert!(client.delete_template(&id).is_ok());
    assert!(matches!(client.delete_template(&id), Err(AppError::NotFound(_))));
}

#[test]
fn failed_cancel_keeps_its_order_mapped() {
    let mut client = connected_client();
    let id = client.create_template(template()).unwrap();
    client.activate_template(&id).unwrap();
    client.complete_activation(&id, PlacementOutcome::Placed).unwrap();
    client.deactivate_template(&id).unwrap();
    let result = client.complete_deactivation(&id, Some("parent".to_string()), None);
    assert!(matches!(result, Err(AppError::IBConnection(_))));
    assert_eq!(client.get_template(&id).unwrap().status, OrderTemplateStatus::Failed);
    assert!(maps(&client, 1000));
    assert!(!maps(&client, 1001));
}

#[test]
fn activation_needs_a_connection() {
    let mut client = IBClient::new();
    let id = client.create_template(template()).unwrap();
    assert!(matches!(client.activate_template(&id), Err(AppError::IBConnection(_))));
    let mut client = connected_client();
    assert!(matches!(client.activate_template("missing"), Err(AppError::NotFound(_))));
}

#[test]
fn invalid_template_is_refused() {
    let mut client = IBClient::new();
    let mut t = template();
    t.stop_price = 155 * PRICE_SCALE;
    assert!(matches!(client.create_template(t), Err(AppError::Validation(_))));
    assert!(client.get_all_templates().is_empty());
}

#[test]
fn update_needs_an_existing_template() {
    let mut client = IBClient::new();
    assert!(matches!(client.update_template(template()), Err(AppError::NotFound(_))));
    let id = client.create_template(template()).unwrap();
    let mut t = client.get_template(&id).unwrap();
    t.quantity = 5;
    assert!(client.update_template(t).is_ok());
    assert_eq!(client.get_template(&id).unwrap().quantity, 5);
}

#[test]
fn switching_accounts() {
    let mut client = IBClient::new();
    assert!(matches!(client.switch_to_live(), Err(AppError::IBConnection(_))));
    assert!(client.connect_live(Err("refused".to_string())).is_err());
    assert!(!client.get_connection_status().live_connected);
    client.connect_paper(Ok(())).unwrap();
    client.connect_live(Ok(())).unwrap();
    assert_eq!(client.get_connection_status().active_account, Some(AccountType::Live));
    client.switch_to_paper().unwrap();
    assert_eq!(client.get_connection_status().active_account, Some(AccountType::Paper));
    client.disconnect();
    let status = client.get_connection_status();
    assert!(!status.paper_connected && !status.live_connected && status.active_account.is_none());
}

#[test]
fn both_cancel_errors_are_reported() {
    let mut client = connected_client();
    let id = client.create_template(template()).unwrap();
    client.activate_template(&id).unwrap();
    client.complete_activation(&id, PlacementOutcome::Placed).unwrap();
    assert!(client.active_orders.iter().all(|o| o.template_id == id));
    client.deactivate_template(&id).unwrap();
    let result = client.complete_deactivation(&id, Some("parent failed".to_string()), Some("stop failed".to_string()));
    match result {
        Err(AppError::IBConnection(m)) => assert_eq!(m, "parent failed, stop failed"),
        _ => panic!("expected a connection error"),
    }
    assert!(maps(&client, 1000) && maps(&client, 1001));
}

#[test]
fn wrong_status_is_a_validation_error() {
    let mut client = connected_client();
    let id = client.create_template(template()).unwrap();
    assert!(matches!(client.deactivate_template(&id), Err(AppError::Validation(_))));
    let mut bad = template();
    bad.quantity = 0;
    match client.create_template(bad) {
        Err(AppError::Validation(m)) => assert_eq!(m, "Quantity must be positive"),
        _ => panic!("expected a validation error"),
    }
}
