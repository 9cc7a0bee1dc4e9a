use zakaz::theme::{parse_color, ChartColors, VolumeBar};
use zakaz::atr::HistoricalBar;
use zakaz::types::PRICE_SCALE;
use zakaz::viewport::{ChartInteraction, ChartViewport, ViewportController, MAX_ZOOM_BARS, MIN_ZOOM_BARS};

fn holds(c: &ViewportController) -> bool {
    let v = c.get_viewport();
    let top = (c.data_length as i64 - 1) * PRICE_SCALE;
    0 <= v.x_min && v.x_min < v.x_max && v.x_max <= top
        && MIN_ZOOM_BARS <= v.x_max - v.x_min && v.x_max - v.x_min <= MAX_ZOOM_BARS
}

#[test]
fn new_controller_shows_first_hundred_bars() {
    let c = ViewportController::new(250);
    assert_eq!(c.get_viewport().x_min, 0);
    assert_eq!(c.get_viewport().x_max, 100 * PRICE_SCALE);
    let small = ViewportController::new(40);
    assert_eq!(small.get_viewport().x_max, 39 * PRICE_SCALE);
}

#[test]
fn pan_and_zoom_stay_in_data() {
    let mut c = ViewportController::new(250);
    c.pan(-1_000 * PRICE_SCALE, 0);
    assert!(holds(&c));
    assert_eq!(c.get_viewport().x_min, 0);
    c.pan(10_000 * PRICE_SCALE, 5);
    assert!(holds(&c));
    assert_eq!(c.get_viewport().x_max, 249 * PRICE_SCALE);
    c.zoom(2 * PRICE_SCALE, 200 * PRICE_SCALE, 0);
    assert!(holds(&c));
    assert_eq!(c.get_viewport().x_max - c.get_viewport().x_min, 50 * PRICE_SCALE);
    // a zoom below five bars is ignored
    let before = c.get_viewport();
    c.zoom(100 * PRICE_SCALE, 200 * PRICE_SCALE, 0);
    assert_eq!(c.get_viewport(), before);
    c.set_viewport(ChartViewport { x_min: 10, x_max: 11, y_min: 0, y_max: 1 });
    assert!(holds(&c));
    c.reset_zoom();
    assert!(holds(&c));
}

#[test]
fn zoom_keeps_the_center_share() {
    let mut v = ChartViewport { x_min: 0, x_max: 100 * PRICE_SCALE, y_min: 0, y_max: 100 * PRICE_SCALE };
    v.zoom(2 * PRICE_SCALE, 50 * PRICE_SCALE, 50 * PRICE_SCALE);
    assert_eq!((v.x_min, v.x_max), (25 * PRICE_SCALE, 75 * PRICE_SCALE));
    assert_eq!((v.y_min, v.y_max), (25 * PRICE_SCALE, 75 * PRICE_SCALE));
}

#[test]
fn shrinking_data_trims_the_view() {
    let mut c = ViewportController::new(250);
    c.update_data_length(50);
    assert_eq!(c.get_viewport().x_max, 49 * PRICE_SCALE);
    assert_eq!(c.get_visible_bar_range(), (0, 49));
}

#[test]
fn fit_y_axis_pads_ten_percent() {
    let mut c = ViewportController::new(10);
    c.fit_y_axis(100 * PRICE_SCALE, 200 * PRICE_SCALE);
    assert_eq!(c.get_viewport().y_min, 90 * PRICE_SCALE);
    assert_eq!(c.get_viewport().y_max, 210 * PRICE_SCALE);
}

#[test]
fn colors_parse() {
    assert_eq!(parse_color("#26a69a80"), (0x26, 0xa6, 0x9a, 0x80));
    assert_eq!(parse_color("#FFFFFF"), (255, 255, 255, 255));
    assert_eq!(parse_color("red"), (0, 0, 0, 255));
    assert_eq!(parse_color("#zz0000"), (0, 0, 0, 255));
    assert_eq!(ChartColors::default().background, "#1a1a1a");
    assert_eq!(ChartColors::light().background, "#ffffff");
}

#[test]
fn volume_bar_direction() {
    let b = HistoricalBar { timestamp: 0, open: 10, high: 12, low: 9, close: 11, volume: 500, wap: 10, count: 3 };
    assert_eq!(VolumeBar::from_historical_bar(&b), VolumeBar { volume: 500, is_bullish: true });
}

#[test]
fn fit_to_data_pads_prices() {
    let s = PRICE_SCALE;
    let bars = vec![
        HistoricalBar { timestamp: 0, open: 100 * s, high: 110 * s, low: 90 * s, close: 100 * s, volume: 1, wap: 0, count: 1 },
        HistoricalBar { timestamp: 1, open: 100 * s, high: 120 * s, low: 95 * s, close: 100 * s, volume: 1, wap: 0, count: 1 },
    ];
    let v = ChartViewport::fit_to_data(&bars, 10 * s);
    assert_eq!(v, ChartViewport { x_min: 0, x_max: s, y_min: 87 * s, y_max: 123 * s });
    assert_eq!(ChartViewport::fit_to_data(&Vec::new(), 10 * s), ChartViewport::new());
}

#[test]
fn constrain_to_data_moves_and_widens() {
    let s = PRICE_SCALE;
    let mut v = ChartViewport { x_min: -10 * s, x_max: 20 * s, y_min: -1000 * s, y_max: 1000 * s };
    v.constrain_to_data(100, 50 * s, 150 * s);
    assert_eq!(v, ChartViewport { x_min: 0, x_max: 30 * s, y_min: 40 * s, y_max: 160 * s });
    let mut narrow = ChartViewport { x_min: 10 * s, x_max: 12 * s, y_min: 60 * s, y_max: 70 * s };
    narrow.constrain_to_data(100, 50 * s, 150 * s);
    assert_eq!((narrow.x_min, narrow.x_max), (10 * s, 15 * s));
    assert_eq!((narrow.y_min, narrow.y_max), (60 * s, 70 * s));
}

#[test]
fn mouse_to_chart_coordinates() {
    let s = PRICE_SCALE;
    let mut mouse = ChartInteraction::new(800, 600);
    let v = ChartViewport { x_min: 0, x_max: 100 * s, y_min: 0, y_max: 100 * s };
    assert_eq!(mouse.screen_to_chart(400, 300, &v), (50 * s, 50 * s));
    assert_eq!(mouse.calculate_pan_delta(80, 60, &v), (-10 * s, 10 * s));
    mouse.last_mouse_x = 80;
    assert_eq!(mouse.calculate_pan_delta(80, 0, &v), (0, 0));
}

#[test]
fn zoom_by_non_positive_factor_is_ignored() {
    let mut c = ViewportController::new(250);
    let before = c.get_viewport();
    c.zoom(0, 10, 10);
    c.zoom(-2 * PRICE_SCALE, 10, 10);
    assert_eq!(c.get_viewport(), before);
}
