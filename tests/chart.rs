use zakaz::atr::{HistoricalBar, HistoricalData};
use zakaz::chart::{ChartAction, ChartMessage, ChartState, CHART_DAYS};
use zakaz::client::{parse_bar_size, AccountType, BarSize, IBClient};
use zakaz::error::AppError;
use zakaz::types::PRICE_SCALE;

fn bars(n: i64) -> Vec<HistoricalBar> {
    (0..n)
        .map(|i| HistoricalBar { timestamp: i, open: 10, high: 12, low: 9, close: 11, volume: 1, wap: 10, count: 1 })
        .collect()
}

#[test]
fn update_needs_a_broker() {
    let mut chart = ChartState::new();
    let action = chart.handle_chart_message(ChartMessage::UpdateChart { symbol: "AAPL".to_string() }, false);
    assert!(matches!(action, ChartAction::ReportError(_)));
    let action = chart.handle_chart_message(ChartMessage::UpdateChart { symbol: "AAPL".to_string() }, true);
    match action {
        ChartAction::FetchBars { symbol, duration_days, bar_size } => {
            assert_eq!(symbol, "AAPL");
            assert_eq!(duration_days, CHART_DAYS);
            assert_eq!(bar_size, "1 day");
        },
        _ => panic!("expected a fetch"),
    }
}

#[test]
fn view_messages_without_data_do_nothing() {
    let mut chart = ChartState::new();
    assert!(matches!(chart.handle_chart_message(ChartMessage::ResetZoom, true), ChartAction::Nothing));
    assert!(matches!(chart.handle_chart_message(ChartMessage::Pan { dx: 1, dy: 1 }, true), ChartAction::Nothing));
}

#[test]
fn received_bars_are_drawn_and_panned() {
    let mut chart = ChartState::new();
    let action = chart.chart_data_received("AAPL".to_string(), bars(100)).unwrap();
    assert!(matches!(action, ChartAction::Render));
    let v = chart.viewport_controller.as_ref().unwrap().get_viewport();
    assert_eq!((v.x_min, v.x_max), (0, 99 * PRICE_SCALE));
    let action = chart.handle_chart_message(ChartMessage::Zoom { factor: 2 * PRICE_SCALE, center_x: 0, center_y: 0 }, true);
    assert!(matches!(action, ChartAction::Render));
    let v = chart.viewport_controller.as_ref().unwrap().get_viewport();
    assert_eq!(v.x_max - v.x_min, 49 * PRICE_SCALE + 5_000);
    chart.handle_chart_message(ChartMessage::Zoom { factor: -1, center_x: 0, center_y: 0 }, true);
    assert_eq!(chart.viewport_controller.as_ref().unwrap().get_viewport(), v);
    // fewer bars shrink the existing view
    chart.chart_data_received("MSFT".to_string(), bars(20)).unwrap();
    assert_eq!(chart.viewport_controller.as_ref().unwrap().data_length, 20);
    assert_eq!(chart.chart_data.as_ref().unwrap().0, "MSFT");
}

#[test]
fn bar_sizes() {
    assert_eq!(parse_bar_size("1 day").unwrap(), BarSize::Day);
    assert_eq!(parse_bar_size("1 hour").unwrap(), BarSize::Hour);
    assert!(matches!(parse_bar_size("5 mins"), Err(AppError::Validation(_))));
}

#[test]
fn historical_request_checks_connection_first() {
    let mut client = IBClient::new();
    assert!(matches!(client.historical_request("5 mins"), Err(AppError::IBConnection(_))));
    client.connect_live(Ok(())).unwrap();
    assert!(matches!(client.historical_request("5 mins"), Err(AppError::Validation(_))));
    assert_eq!(client.historical_request("1 day").unwrap(), (AccountType::Live, BarSize::Day));
}

#[test]
fn series_from_bars_is_sorted() {
    let mut raw = bars(3);
    raw.reverse();
    let data = HistoricalData::from_bars("A".to_string(), "1 day".to_string(), "3 days".to_string(), raw);
    assert_eq!(data.bars.iter().map(|b| b.timestamp).collect::<Vec<_>>(), vec![0, 1, 2]);
}
