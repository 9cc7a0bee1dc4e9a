use vstd::prelude::*;
use crate::atr::HistoricalBar;
use crate::error::AppError;
use crate::types::PRICE_SCALE;
use crate::viewport::{
    constrained, in_coord_range, panned, reset_view, reset_x_max, zoom_span, zoomed, ChartViewport, ViewportController, COORD_LIMIT,
    MAX_ZOOM_BARS, MIN_ZOOM_BARS,
};

verus! {

/// Daily bars fetched for a chart.
pub const CHART_DAYS: u32 = 100;

/// Messages for the chart.
pub enum ChartMessage {
    /// Fetch the bars of `symbol` and draw them.
    UpdateChart { symbol: String },
    Pan { dx: i64, dy: i64 },
    /// Zoom by `factor` (fixed-point) about a point.
    Zoom { factor: i64, center_x: i64, center_y: i64 },
    ResetZoom,
    SetViewport(ChartViewport),
}

/// What the chart handler asks of its surroundings.
pub enum ChartAction {
    /// Fetch bars from the broker, then hand them to `chart_data_received`.
    FetchBars { symbol: String, duration_days: u32, bar_size: String },
    /// Draw the stored bars in the current viewport.
    Render,
    /// Show an error to the user.
    ReportError(String),
    /// Nothing to do.
    Nothing,
}

/// The chart's data and view.
pub struct ChartState {
    /// The symbol and bars last fetched.
    pub chart_data: Option<(String, Vec<HistoricalBar>)>,
    pub viewport_controller: Option<ViewportController>,
}

/// What handling `msg` does to the chart state `before`, with
/// `broker_connected` telling whether a connected account is selected.
pub open spec fn chart_handled(
    before: ChartState,
    after: ChartState,
    msg: ChartMessage,
    broker_connected: bool,
    action: ChartAction,
) -> bool {
    &&& after.chart_data == before.chart_data
    &&& (before.viewport_controller is None ==> after.viewport_controller is None)
    &&& (msg matches ChartMessage::UpdateChart { symbol } ==> {
        &&& after == before
        &&& broker_connected ==> (action matches ChartAction::FetchBars { symbol: s, duration_days: d, bar_size: b }
            && s == symbol && d == CHART_DAYS && b@ == "1 day"@)
        &&& !broker_connected ==> action is ReportError
    })
    &&& (!(msg is UpdateChart) && before.viewport_controller is None ==> action is Nothing && after == before)
    &&& (!(msg is UpdateChart) && before.viewport_controller is Some ==> (action is Render <==> before.chart_data is Some)
        && (action is Nothing <==> before.chart_data is None))
    &&& (msg matches ChartMessage::Pan { dx, dy } ==> (before.viewport_controller matches Some(c) ==>
        after.viewport_controller->Some_0.viewport == constrained(panned(c.viewport, dx as int, dy as int), c.data_length as int)))
    &&& (msg matches ChartMessage::Zoom { factor, center_x, center_y } ==> (before.viewport_controller matches Some(c) ==>
        after.viewport_controller->Some_0.viewport == (if factor <= 0
            || zoom_span(c.viewport, factor as int) < MIN_ZOOM_BARS
            || zoom_span(c.viewport, factor as int) > MAX_ZOOM_BARS {
            c.viewport
        } else {
            constrained(zoomed(c.viewport, factor as int, center_x as int, center_y as int), c.data_length as int)
        })))
    &&& (msg is ResetZoom ==> (before.viewport_controller matches Some(c) ==>
        after.viewport_controller->Some_0.viewport == reset_view(c.viewport, c.data_length as int)))
    &&& (msg matches ChartMessage::SetViewport(v) ==> (before.viewport_controller matches Some(c) ==>
        after.viewport_controller->Some_0.viewport == (if in_coord_range(v) {
            constrained(v, c.data_length as int)
        } else {
            c.viewport
        })))
}

impl ChartState {
    /// The viewport controller, if any, is well formed.
    pub open spec fn wf(&self) -> bool {
        self.viewport_controller matches Some(c) ==> c.wf()
    }

    /// Bars can be drawn: there are bars and a view.
    pub open spec fn can_render(&self) -> bool {
        self.chart_data is Some && self.viewport_controller is Some
    }

    /// No bars and no view.
    pub fn new() -> (r: ChartState)
        ensures
            r.wf(),
            r.chart_data is None,
            r.viewport_controller is None,
    {
        ChartState { chart_data: None, viewport_controller: None }
    }

    fn render_if_possible(&self) -> (r: ChartAction)
        ensures
            r is Render <==> self.can_render(),
            !self.can_render() ==> r is Nothing,
    {
        if self.chart_data.is_some() && self.viewport_controller.is_some() {
            ChartAction::Render
        } else {
            ChartAction::Nothing
        }
    }

    /// Handles one chart message. Updating asks for the symbol's daily bars
    /// when a broker is connected and reports an error otherwise. Pan, zoom,
    /// reset and set act on the view when there is one, then ask for a new
    /// drawing when there are bars. A zoom by a factor that is not positive
    /// and a viewport outside the coordinate range are ignored.
    pub fn handle_chart_message(&mut self, msg: ChartMessage, broker_connected: bool) -> (r: ChartAction)
        requires
            old(self).wf(),
        ensures
            final(self).wf(),
            chart_handled(*old(self), *final(self), msg, broker_connected, r),
    {
        match msg {
            ChartMessage::UpdateChart { symbol } => {
                if broker_connected {
                    ChartAction::FetchBars { symbol, duration_days: CHART_DAYS, bar_size: "1 day".to_string() }
                } else {
                    ChartAction::ReportError("IB client not connected".to_string())
                }
            },
            ChartMessage::Pan { dx, dy } => {
                match &mut self.viewport_controller {
                    Some(c) => {
                        c.pan(dx, dy);
                    },
                    None => {
                        return ChartAction::Nothing;
                    },
                }
                self.render_if_possible()
            },
            ChartMessage::Zoom { factor, center_x, center_y } => {
                match &mut self.viewport_controller {
                    Some(c) => {
                        if factor > 0 {
                            c.zoom(factor, center_x, center_y);
                        }
                    },
                    None => {
                        return ChartAction::Nothing;
                    },
                }
                self.render_if_possible()
            },
            ChartMessage::ResetZoom => {
                match &mut self.viewport_controller {
                    Some(c) => {
                        c.reset_zoom();
                    },
                    None => {
                        return ChartAction::Nothing;
                    },
                }
                self.render_if_possible()
            },
            ChartMessage::SetViewport(v) => {
                match &mut self.viewport_controller {
                    Some(c) => {
                        if in_coord_range_exec(&v) {
                            c.set_viewport(v);
                        }
                    },
                    None => {
                        return ChartAction::Nothing;
                    },
                }
                self.render_if_possible()
            },
        }
    }

    /// Stores the fetched bars of `symbol`, creates the view for them or
    /// gives the existing view the new length, and asks for a drawing. A
    /// series longer than the coordinate range holds is refused.
    pub fn chart_data_received(&mut self, symbol: String, bars: Vec<HistoricalBar>) -> (r: Result<ChartAction, AppError>)
        requires
            old(self).wf(),
        ensures
            final(self).wf(),
            r is Ok <==> bars@.len() <= COORD_LIMIT / PRICE_SCALE,
            r matches Err(e) ==> e is Validation && *final(self) == *old(self),
            r matches Ok(a) ==> a is Render && final(self).can_render()
                && final(self).chart_data == Some((symbol, bars))
                && final(self).viewport_controller->Some_0.data_length == bars@.len()
                && (old(self).viewport_controller is None && bars@.len() > 0 ==> {
                    let v = final(self).viewport_controller->Some_0.viewport;
                    v.x_min == 0 && v.x_max == reset_x_max(bars@.len() as int)
                }),
    {
        let n = bars.len();
        if n > (COORD_LIMIT / PRICE_SCALE) as usize {
            return Err(AppError::Validation("Too many bars for the chart".to_string()));
        }
        match &mut self.viewport_controller {
            Some(c) => {
                c.update_data_length(n);
            },
            None => {
                self.viewport_controller = Some(ViewportController::new(n));
            },
        }
        self.chart_data = Some((symbol, bars));
        Ok(ChartAction::Render)
    }
}

fn in_coord_range_exec(v: &ChartViewport) -> (r: bool)
    ensures
        r == in_coord_range(*v),
{
    -COORD_LIMIT <= v.x_min && v.x_min <= COORD_LIMIT && -COORD_LIMIT <= v.x_max && v.x_max <= COORD_LIMIT
        && -COORD_LIMIT <= v.y_min && v.y_min <= COORD_LIMIT && -COORD_LIMIT <= v.y_max && v.y_max <= COORD_LIMIT
}

} // verus!
