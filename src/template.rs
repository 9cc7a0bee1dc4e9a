use vstd::prelude::*;
use crate::clock::current_unix_time;
use crate::types::{OrderSide, OrderTemplateStatus, TimeInForce, TradingModel, PRICE_SCALE};

verus! {

/// Risk budget given to a new template: 100 in fixed-point.
pub const DEFAULT_RISK_PER_TRADE: i64 = 100 * PRICE_SCALE;

/// Relies on `uuid::Uuid::new_v4` and its `Display`: a fresh random id.
/// Nothing is known of its value.
#[verifier::external_body]
pub(crate) fn new_template_id() -> (r: String) {
    uuid::Uuid::new_v4().to_string()
}

/// Durable intent for one bracket order: a limit entry with an attached
/// stop. Prices are fixed-point; times are seconds since the Unix epoch.
pub struct OrderTemplate {
    pub id: String,
    pub name: String,
    pub symbol: String,
    pub side: OrderSide,
    /// Number of shares.
    pub quantity: i64,
    /// Entry limit price.
    pub limit_price: i64,
    /// Protective stop price.
    pub stop_price: i64,
    /// Stop adjusted to a technical level, used in place of `stop_price`.
    pub technical_stop_price: Option<i64>,
    pub time_in_force: TimeInForce,
    pub status: OrderTemplateStatus,
    /// Broker id of the entry order while the template is live.
    pub parent_order_id: Option<i32>,
    /// Broker id of the stop order while the template is live.
    pub stop_order_id: Option<i32>,
    pub created_at: i64,
    pub activated_at: Option<i64>,
    pub notes: Option<String>,
    pub model: TradingModel,
    /// Discovered at the broker rather than created here.
    pub is_read_only: bool,
    /// Risk budget for position sizing.
    pub risk_per_trade: i64,
}

/// Quantity and prices are positive and the stop lies on the protective
/// side of the limit.
pub open spec fn template_valid(t: OrderTemplate) -> bool {
    &&& t.quantity > 0
    &&& t.limit_price > 0
    &&& t.stop_price > 0
    &&& (t.side == OrderSide::Long ==> t.stop_price < t.limit_price)
    &&& (t.side == OrderSide::Short ==> t.stop_price > t.limit_price)
}

/// The message of the first rule that `t` breaks.
pub open spec fn validation_error(t: OrderTemplate) -> Seq<char> {
    if t.quantity <= 0 {
        "Quantity must be positive"@
    } else if t.limit_price <= 0 {
        "Limit price must be positive"@
    } else if t.stop_price <= 0 {
        "Stop price must be positive"@
    } else if t.side == OrderSide::Long {
        "For long orders, stop price must be below limit price"@
    } else {
        "For short orders, stop price must be above limit price"@
    }
}

fn copy_text(s: &Option<String>) -> (r: Option<String>)
    ensures
        r == *s,
{
    match s {
        Some(t) => Some(t.clone()),
        None => None,
    }
}

impl OrderTemplate {
    /// A new inactive template with a fresh id, created now, with the
    /// default risk budget and no broker ids.
    pub fn new(
        name: String,
        symbol: String,
        side: OrderSide,
        quantity: i64,
        limit_price: i64,
        stop_price: i64,
        time_in_force: TimeInForce,
        model: TradingModel,
    ) -> (r: OrderTemplate)
        ensures
            r.name == name,
            r.symbol == symbol,
            r.side == side,
            r.quantity == quantity,
            r.limit_price == limit_price,
            r.stop_price == stop_price,
            r.technical_stop_price is None,
            r.time_in_force == time_in_force,
            r.status == OrderTemplateStatus::Inactive,
            r.parent_order_id is None,
            r.stop_order_id is None,
            r.activated_at is None,
            r.notes is None,
            r.model == model,
            !r.is_read_only,
            r.risk_per_trade == DEFAULT_RISK_PER_TRADE,
    {
        OrderTemplate {
            id: new_template_id(),
            name,
            symbol,
            side,
            quantity,
            limit_price,
            stop_price,
            technical_stop_price: None,
            time_in_force,
            status: OrderTemplateStatus::Inactive,
            parent_order_id: None,
            stop_order_id: None,
            created_at: current_unix_time(),
            activated_at: None,
            notes: None,
            model,
            is_read_only: false,
            risk_per_trade: DEFAULT_RISK_PER_TRADE,
        }
    }

    /// A field-by-field copy.
    pub fn snapshot(&self) -> (r: OrderTemplate)
        ensures
            r == *self,
    {
        OrderTemplate {
            id: self.id.clone(),
            name: self.name.clone(),
            symbol: self.symbol.clone(),
            side: self.side,
            quantity: self.quantity,
            limit_price: self.limit_price,
            stop_price: self.stop_price,
            technical_stop_price: self.technical_stop_price,
            time_in_force: self.time_in_force,
            status: self.status,
            parent_order_id: self.parent_order_id,
            stop_order_id: self.stop_order_id,
            created_at: self.created_at,
            activated_at: self.activated_at,
            notes: copy_text(&self.notes),
            model: self.model,
            is_read_only: self.is_read_only,
            risk_per_trade: self.risk_per_trade,
        }
    }

    /// Live at the broker.
    pub fn is_active(&self) -> (r: bool)
        ensures
            r == (self.status == OrderTemplateStatus::Active),
    {
        self.status == OrderTemplateStatus::Active
    }

    /// Inactive or failed: may be sent to the broker.
    pub fn can_activate(&self) -> (r: bool)
        ensures
            r == (self.status == OrderTemplateStatus::Inactive || self.status == OrderTemplateStatus::Failed),
    {
        self.status == OrderTemplateStatus::Inactive || self.status == OrderTemplateStatus::Failed
    }

    /// Live: may be cancelled.
    pub fn can_deactivate(&self) -> (r: bool)
        ensures
            r == (self.status == OrderTemplateStatus::Active),
    {
        self.status == OrderTemplateStatus::Active
    }

    /// Succeeds exactly when quantity and prices are positive and the stop
    /// lies below the limit for a long, above it for a short.
    pub fn validate(&self) -> (r: Result<(), String>)
        ensures
            r is Ok <==> template_valid(*self),
            r matches Err(m) ==> m@ == validation_error(*self),
    {
        if self.quantity <= 0 {
            return Err("Quantity must be positive".to_string());
        }
        if self.limit_price <= 0 {
            return Err("Limit price must be positive".to_string());
        }
        if self.stop_price <= 0 {
            return Err("Stop price must be positive".to_string());
        }
        match self.side {
            OrderSide::Long => {
                if self.stop_price >= self.limit_price {
                    return Err("For long orders, stop price must be below limit price".to_string());
                }
            },
            OrderSide::Short => {
                if self.stop_price <= self.limit_price {
                    return Err("For short orders, stop price must be above limit price".to_string());
                }
            },
        }
        Ok(())
    }

    /// The technical stop when set, else the calculated stop.
    pub fn get_stop_loss(&self) -> (r: i64)
        ensures
            r == (match self.technical_stop_price {
                Some(p) => p,
                None => self.stop_price,
            }),
    {
        match self.technical_stop_price {
            Some(p) => p,
            None => self.stop_price,
        }
    }
}

} // verus!
