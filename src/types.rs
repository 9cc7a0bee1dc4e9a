use vstd::prelude::*;

verus! {

/// Number of fixed-point units in one whole unit of price (or of any other
/// decimal quantity): prices are held in ten-thousandths.
pub const PRICE_SCALE: i64 = 10_000;

/// Direction of a bracket order.
#[derive(Debug, Clone, Copy, PartialEq, Eq, Structural)]
pub enum OrderSide {
    Long,
    Short,
}

/// Broker action of an order.
#[derive(Debug, Clone, Copy, PartialEq, Eq, Structural)]
pub enum OrderAction {
    Buy,
    Sell,
}

/// Action of the entry order of a side.
pub open spec fn entry_action(side: OrderSide) -> OrderAction {
    match side {
        OrderSide::Long => OrderAction::Buy,
        OrderSide::Short => OrderAction::Sell,
    }
}

/// Action of the protective stop of a side: the opposite of the entry.
pub open spec fn exit_action(side: OrderSide) -> OrderAction {
    match side {
        OrderSide::Long => OrderAction::Sell,
        OrderSide::Short => OrderAction::Buy,
    }
}

impl OrderSide {
    /// The action of the entry order.
    pub fn to_action(&self) -> (r: OrderAction)
        ensures
            r == entry_action(*self),
    {
        match self {
            OrderSide::Long => OrderAction::Buy,
            OrderSide::Short => OrderAction::Sell,
        }
    }

    /// The action of the protective stop: the opposite of the entry.
    pub fn stop_action(&self) -> (r: OrderAction)
        ensures
            r == exit_action(*self),
    {
        match self {
            OrderSide::Long => OrderAction::Sell,
            OrderSide::Short => OrderAction::Buy,
        }
    }
}

/// How long the entry order stays working.
#[derive(Debug, Clone, Copy, PartialEq, Eq, Structural)]
pub enum TimeInForce {
    Day,
    GTC,
}

/// The broker's code for a time in force.
pub open spec fn tif_code(t: TimeInForce) -> Seq<char> {
    match t {
        TimeInForce::Day => "DAY"@,
        TimeInForce::GTC => "GTC"@,
    }
}

impl TimeInForce {
    /// The broker's code for the time in force.
    pub fn to_string(&self) -> (r: String)
        ensures
            r@ == tif_code(*self),
    {
        match self {
            TimeInForce::Day => "DAY".to_string(),
            TimeInForce::GTC => "GTC".to_string(),
        }
    }
}

/// Lifecycle of a template at the broker.
#[derive(Debug, Clone, Copy, PartialEq, Eq, Structural)]
pub enum OrderTemplateStatus {
    /// Not sent to the broker.
    Inactive,
    /// Being sent.
    Activating,
    /// Live at the broker.
    Active,
    /// Being cancelled.
    Deactivating,
    /// A transmission or cancellation failed.
    Failed,
}

/// Trading model of a template.
#[derive(Debug, Clone, Copy, PartialEq, Eq, Structural)]
pub enum TradingModel {
    Breakout,
    FalseBreakout,
    Bounce,
    Continuation,
}

impl Default for TradingModel {
    fn default() -> (r: Self)
        ensures
            r == TradingModel::Breakout,
    {
        TradingModel::Breakout
    }
}

} // verus!
