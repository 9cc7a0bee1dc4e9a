use vstd::prelude::*;
use crate::clock::current_rfc3339;
use crate::template::new_template_id;
use crate::text::same_text;
use crate::types::{OrderSide, TradingModel};

verus! {

/// Lifecycle of a stored order.
#[derive(Debug, Clone, Copy, PartialEq, Eq, Structural)]
pub enum OrderStatus {
    /// Not yet submitted.
    Template,
    /// Submitted to the broker.
    Active,
    Filled,
    Cancelled,
}

/// Stored name of a status.
pub open spec fn status_text(s: OrderStatus) -> Seq<char> {
    match s {
        OrderStatus::Template => "Template"@,
        OrderStatus::Active => "Active"@,
        OrderStatus::Filled => "Filled"@,
        OrderStatus::Cancelled => "Cancelled"@,
    }
}

/// The status stored under a name.
pub open spec fn status_from_text(t: Seq<char>) -> Option<OrderStatus> {
    if t == "Template"@ {
        Some(OrderStatus::Template)
    } else if t == "Active"@ {
        Some(OrderStatus::Active)
    } else if t == "Filled"@ {
        Some(OrderStatus::Filled)
    } else if t == "Cancelled"@ {
        Some(OrderStatus::Cancelled)
    } else {
        None
    }
}

/// Stored name of a side.
pub open spec fn side_text(s: OrderSide) -> Seq<char> {
    match s {
        OrderSide::Long => "Buy"@,
        OrderSide::Short => "Sell"@,
    }
}

/// Stored name of a trading model.
pub open spec fn model_text(m: TradingModel) -> Seq<char> {
    match m {
        TradingModel::Breakout => "Breakout"@,
        TradingModel::FalseBreakout => "FalseBreakout"@,
        TradingModel::Bounce => "Bounce"@,
        TradingModel::Continuation => "Continuation"@,
    }
}

/// The trading model stored under a name.
pub open spec fn model_from_text(t: Seq<char>) -> Option<TradingModel> {
    if t == "Breakout"@ {
        Some(TradingModel::Breakout)
    } else if t == "FalseBreakout"@ {
        Some(TradingModel::FalseBreakout)
    } else if t == "Bounce"@ {
        Some(TradingModel::Bounce)
    } else if t == "Continuation"@ {
        Some(TradingModel::Continuation)
    } else {
        None
    }
}

impl OrderStatus {
    /// The stored name.
    pub fn as_str(&self) -> (r: &'static str)
        ensures
            r@ == status_text(*self),
    {
        match self {
            OrderStatus::Template => "Template",
            OrderStatus::Active => "Active",
            OrderStatus::Filled => "Filled",
            OrderStatus::Cancelled => "Cancelled",
        }
    }

    /// The status stored under `s`, if any.
    pub fn from_str(s: &str) -> (r: Option<OrderStatus>)
        ensures
            r == status_from_text(s@),
    {
        if same_text(s, "Template") {
            Some(OrderStatus::Template)
        } else if same_text(s, "Active") {
            Some(OrderStatus::Active)
        } else if same_text(s, "Filled") {
            Some(OrderStatus::Filled)
        } else if same_text(s, "Cancelled") {
            Some(OrderStatus::Cancelled)
        } else {
            None
        }
    }
}

/// A stored order template row. Prices are fixed-point; times are RFC 3339.
pub struct DbOrderTemplate {
    pub id: String,
    pub name: String,
    pub symbol: String,
    /// "Buy" or "Sell".
    pub side: String,
    pub quantity: i64,
    pub limit_price: i64,
    pub stop_price: i64,
    pub technical_stop_price: Option<i64>,
    pub time_in_force: String,
    pub model: String,
    pub status: String,
    pub is_read_only: bool,
    pub risk_per_trade: Option<i64>,
    pub created_at: String,
    pub updated_at: String,
}

/// A stored live order of a template.
pub struct DbActiveOrder {
    pub template_id: String,
    pub ib_order_id: i64,
    pub ib_stop_order_id: Option<i64>,
    pub submitted_at: String,
}

/// A stored key-value setting.
pub struct DbSetting {
    pub key: String,
    pub value: String,
    pub updated_at: String,
}

/// A stored broker position. The average cost is fixed-point.
pub struct DbPosition {
    pub ib_position_id: String,
    pub template_id: Option<String>,
    pub symbol: String,
    pub quantity: i64,
    pub avg_cost: i64,
    pub is_read_only: bool,
    pub synced_at: String,
}

fn side_name(side: OrderSide) -> (r: String)
    ensures
        r@ == side_text(side),
{
    match side {
        OrderSide::Long => "Buy".to_string(),
        OrderSide::Short => "Sell".to_string(),
    }
}

fn model_name(model: TradingModel) -> (r: String)
    ensures
        r@ == model_text(model),
{
    match model {
        TradingModel::Breakout => "Breakout".to_string(),
        TradingModel::FalseBreakout => "FalseBreakout".to_string(),
        TradingModel::Bounce => "Bounce".to_string(),
        TradingModel::Continuation => "Continuation".to_string(),
    }
}

impl DbOrderTemplate {
    /// A new GTC row in status Template with a fresh id, created and
    /// updated now, without technical stop or risk budget.
    pub fn new(
        name: String,
        symbol: String,
        side: OrderSide,
        quantity: i64,
        limit_price: i64,
        stop_price: i64,
        model: TradingModel,
    ) -> (r: DbOrderTemplate)
        ensures
            r.name == name,
            r.symbol == symbol,
            r.side@ == side_text(side),
            r.quantity == quantity,
            r.limit_price == limit_price,
            r.stop_price == stop_price,
            r.technical_stop_price is None,
            r.time_in_force@ == "GTC"@,
            r.model@ == model_text(model),
            r.status@ == status_text(OrderStatus::Template),
            !r.is_read_only,
            r.risk_per_trade is None,
            r.created_at == r.updated_at,
    {
        let now = current_rfc3339();
        DbOrderTemplate {
            id: new_template_id(),
            name,
            symbol,
            side: side_name(side),
            quantity,
            limit_price,
            stop_price,
            technical_stop_price: None,
            time_in_force: "GTC".to_string(),
            model: model_name(model),
            status: OrderStatus::Template.as_str().to_string(),
            is_read_only: false,
            risk_per_trade: None,
            created_at: now.clone(),
            updated_at: now,
        }
    }

    /// The side stored in the row: "Buy" is long, "Sell" short.
    pub fn get_order_side(&self) -> (r: Option<OrderSide>)
        ensures
            r == (if self.side@ == "Buy"@ {
                Some(OrderSide::Long)
            } else if self.side@ == "Sell"@ {
                Some(OrderSide::Short)
            } else {
                None::<OrderSide>
            }),
    {
        if same_text(self.side.as_str(), "Buy") {
            Some(OrderSide::Long)
        } else if same_text(self.side.as_str(), "Sell") {
            Some(OrderSide::Short)
        } else {
            None
        }
    }

    /// The trading model stored in the row.
    pub fn get_trading_model(&self) -> (r: Option<TradingModel>)
        ensures
            r == model_from_text(self.model@),
    {
        if same_text(self.model.as_str(), "Breakout") {
            Some(TradingModel::Breakout)
        } else if same_text(self.model.as_str(), "FalseBreakout") {
            Some(TradingModel::FalseBreakout)
        } else if same_text(self.model.as_str(), "Bounce") {
            Some(TradingModel::Bounce)
        } else if same_text(self.model.as_str(), "Continuation") {
            Some(TradingModel::Continuation)
        } else {
            None
        }
    }

    /// The status stored in the row.
    pub fn get_order_status(&self) -> (r: Option<OrderStatus>)
        ensures
            r == status_from_text(self.status@),
    {
        OrderStatus::from_str(self.status.as_str())
    }

    /// The technical stop when set, else the calculated stop.
    pub fn get_stop_loss(&self) -> (r: i64)
        ensures
            r == (match self.technical_stop_price {
                Some(p) => p,
                None => self.stop_price,
            }),
    {
        match self.technical_stop_price {
            Some(p) => p,
            None => self.stop_price,
        }
    }
}

} // verus!
