use zakaz::client::IBClient;
use zakaz::error::AppError;
use zakaz::ib_handler::{handle_ib_message, report_broker_outcome, BrokerOutcome, IBMessage, IBReply};
use zakaz::runtime::UIMessage;
use zakaz::types::{OrderSide, TimeInForce, TradingModel, PRICE_SCALE};

fn create(client: &mut IBClient, stop: i64) -> (IBReply, Vec<UIMessage>) {
    handle_ib_message(
        client,
        IBMessage::CreateTemplate {
            name: "T".to_string(),
            symbol: "AAPL".to_string(),
            side: OrderSide::Long,
            quantity: 10,
            limit_price: 150 * PRICE_SCALE,
            stop_price: stop,
            time_in_force: TimeInForce::Day,
            model: TradingModel::Bounce,
        },
    )
}

#[test]
fn create_reports_templates() {
    let mut client = IBClient::new();
    let (reply, ui) = create(&mut client, 145 * PRICE_SCALE);
    assert!(matches!(reply, IBReply::Created(Ok(_))));
    assert_eq!(ui.len(), 2);
    assert!(matches!(&ui[1], UIMessage::IBOrderTemplateUpdate { templates } if templates.len() == 1));
}

#[test]
fn invalid_create_reports_error() {
    let mut client = IBClient::new();
    let (reply, ui) = create(&mut client, 155 * PRICE_SCALE);
    assert!(matches!(reply, IBReply::Created(Err(AppError::Validation(_)))));
    assert!(matches!(ui.as_slice(), [UIMessage::ErrorMessage(_)]));
    assert!(client.order_templates.is_empty());
}

#[test]
fn delete_and_lookup() {
    let mut client = IBClient::new();
    let id = match create(&mut client, 145 * PRICE_SCALE).0 {
        IBReply::Created(Ok(id)) => id,
        _ => panic!("creation failed"),
    };
    let (reply, _) = handle_ib_message(&mut client, IBMessage::GetTemplate { template_id: id.clone() });
    assert!(matches!(reply, IBReply::Template(Some(_))));
    let (reply, ui) = handle_ib_message(&mut client, IBMessage::DeleteTemplate { template_id: id.clone() });
    assert!(matches!(reply, IBReply::Done(Ok(()))));
    assert!(matches!(&ui[1], UIMessage::IBOrderTemplateUpdate { templates } if templates.is_empty()));
    let (reply, ui) = handle_ib_message(&mut client, IBMessage::DeleteTemplate { template_id: id });
    assert!(matches!(reply, IBReply::Done(Err(AppError::NotFound(_)))));
    assert!(ui.is_empty());
}

#[test]
fn switch_without_connection_fails_quietly() {
    let mut client = IBClient::new();
    let (reply, ui) = handle_ib_message(&mut client, IBMessage::SwitchToLive);
    assert!(matches!(reply, IBReply::Done(Err(AppError::IBConnection(_)))));
    assert!(ui.is_empty());
    client.connect_live(Ok(())).unwrap();
    client.connect_paper(Ok(())).unwrap();
    let (_, ui) = handle_ib_message(&mut client, IBMessage::SwitchToLive);
    assert!(matches!(ui[1], UIMessage::IBConnectionStatus { live_connected: true, .. }));
    let (reply, _) = handle_ib_message(&mut client, IBMessage::GetConnectionStatus);
    assert!(matches!(reply, IBReply::Status { paper_connected: true, live_connected: true }));
}

#[test]
fn broker_outcomes_are_reported() {
    let mut client = IBClient::new();
    client.connect_paper(Ok(())).unwrap();
    let (reply, ui) = report_broker_outcome(&client, BrokerOutcome::ConnectPaper(Ok(())));
    assert!(matches!(reply, IBReply::Done(Ok(()))));
    assert!(matches!(ui[1], UIMessage::IBConnectionStatus { paper_connected: true, .. }));
    let failure = AppError::IBConnection("refused".to_string());
    let (_, ui) = report_broker_outcome(&client, BrokerOutcome::Activated(Err(failure)));
    assert!(matches!(ui.as_slice(), [UIMessage::ErrorMessage(m)] if m == "refused"));
    let (_, ui) = report_broker_outcome(&client, BrokerOutcome::Deactivated(Ok(())));
    assert!(matches!(&ui[1], UIMessage::IBOrderTemplateUpdate { templates } if templates.is_empty()));
    let (reply, ui) = report_broker_outcome(&client, BrokerOutcome::AccountSummaryRequested);
    assert!(matches!(reply, IBReply::Done(Err(AppError::Custom(_)))));
    assert!(ui.is_empty());
    let (_, ui) = report_broker_outcome(&client, BrokerOutcome::MarketDataSubscribed(Err(AppError::Custom("x".to_string()))));
    assert!(ui.is_empty());
}
