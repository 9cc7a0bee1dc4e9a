use vstd::prelude::*;
use vstd::string::StringExecFns;
use crate::clock::current_unix_time;
use crate::error::AppError;
use crate::template::{template_valid, validation_error, OrderTemplate};
use crate::text::same_text;
use crate::types::{entry_action, exit_action, tif_code, OrderAction, OrderTemplateStatus};

verus! {

/// First broker order id handed out.
pub const FIRST_ORDER_ID: i32 = 1000;

/// Which broker connection orders are routed through.
#[derive(Debug, Clone, Copy, PartialEq, Eq, Structural)]
pub enum AccountType {
    Paper,
    Live,
}

/// Connections and the account selected among them.
#[derive(Debug, Clone, Copy, PartialEq, Eq, Structural)]
pub struct ConnectionStatus {
    pub paper_connected: bool,
    pub live_connected: bool,
    pub active_account: Option<AccountType>,
}

/// One broker order of a bracket, as it is to be transmitted.
pub struct OrderTicket {
    pub order_id: i32,
    pub action: OrderAction,
    /// "LMT" or "STP".
    pub order_type: String,
    pub quantity: i64,
    pub limit_price: Option<i64>,
    /// Trigger price of a stop.
    pub aux_price: Option<i64>,
    /// Id of the order this one is attached to, or 0.
    pub parent_id: i32,
    /// "DAY" or "GTC".
    pub tif: String,
    /// Transmit now; false holds the order until its child arrives.
    pub transmit: bool,
}

/// A bracket to place: the limit entry, then the attached stop.
pub struct BracketOrder {
    pub symbol: String,
    pub parent: OrderTicket,
    pub stop: OrderTicket,
}

/// The orders of a live template to cancel.
#[derive(Debug, Clone, Copy, PartialEq, Eq, Structural)]
pub struct CancelPlan {
    pub parent_order_id: Option<i32>,
    pub stop_order_id: Option<i32>,
}

/// How placing a bracket ended at the broker.
pub enum PlacementOutcome {
    /// Both orders were accepted.
    Placed,
    /// The entry order was refused; nothing is live.
    ParentRejected(String),
    /// The entry was accepted and the stop refused; the entry was then
    /// cancelled.
    StopRejected(String),
}

/// The next broker call while placing a bracket, or the end.
pub enum BracketStep {
    PlaceParent,
    PlaceStop,
    /// Cancel the entry after the stop was refused with the given error.
    CancelParent(String),
    Done(PlacementOutcome),
}

/// Broker order id mapped to the template it belongs to.
pub struct ActiveOrder {
    pub order_id: i32,
    pub template_id: String,
}

/// Bar sizes the broker is asked for.
#[derive(Debug, Clone, Copy, PartialEq, Eq, Structural)]
pub enum BarSize {
    Day,
    Hour,
}

/// The bar size named "1 day" or "1 hour"; any other name is refused.
pub fn parse_bar_size(bar_size: &str) -> (r: Result<BarSize, AppError>)
    ensures
        r matches Ok(b) ==> (b == BarSize::Day <==> bar_size@ == "1 day"@),
        r is Ok <==> bar_size@ == "1 day"@ || bar_size@ == "1 hour"@,
        bar_size@ == "1 day"@ ==> r == Ok::<BarSize, AppError>(BarSize::Day),
        r matches Err(e) ==> e is Validation,
{
    if same_text(bar_size, "1 day") {
        Ok(BarSize::Day)
    } else if same_text(bar_size, "1 hour") {
        Ok(BarSize::Hour)
    } else {
        Err(AppError::Validation("Unsupported bar size: only '1 day' and '1 hour' are supported".to_string()))
    }
}

/// Broker-facing state: connections, templates and live orders.
pub struct IBClient {
    pub paper_connected: bool,
    pub live_connected: bool,
    pub active_account: Option<AccountType>,
    /// Templates, at most one per id.
    pub order_templates: Vec<OrderTemplate>,
    /// Live broker orders, at most one entry per order id.
    pub active_orders: Vec<ActiveOrder>,
    /// Next broker order id to hand out.
    pub next_order_id: i32,
}

/// The step after `step` once its broker call returned `result`: the stop
/// follows an accepted entry; a refused entry ends the placement; a refused
/// stop leads to one cancellation of the entry, after which the placement
/// ends with the stop's error whatever the cancellation returned.
pub fn next_bracket_step(step: BracketStep, result: Result<(), String>) -> (r: BracketStep)
    requires
        !(step is Done),
    ensures
        step is PlaceParent && result is Ok ==> r is PlaceStop,
        step is PlaceParent && result is Err ==> (r matches BracketStep::Done(PlacementOutcome::ParentRejected(e))
            && result == Err::<(), String>(e)),
        step is PlaceStop && result is Ok ==> r matches BracketStep::Done(PlacementOutcome::Placed),
        step is PlaceStop && result is Err ==> (r matches BracketStep::CancelParent(e) && result == Err::<(), String>(e)),
        step matches BracketStep::CancelParent(e) ==> (r matches BracketStep::Done(PlacementOutcome::StopRejected(f)) && f == e),
{
    match step {
        BracketStep::PlaceParent => match result {
            Ok(()) => BracketStep::PlaceStop,
            Err(e) => BracketStep::Done(PlacementOutcome::ParentRejected(e)),
        },
        BracketStep::PlaceStop => match result {
            Ok(()) => BracketStep::Done(PlacementOutcome::Placed),
            Err(e) => BracketStep::CancelParent(e),
        },
        BracketStep::CancelParent(e) => BracketStep::Done(PlacementOutcome::StopRejected(e)),
        BracketStep::Done(o) => BracketStep::Done(o),
    }
}

/// Some entry maps broker order `id`.
pub open spec fn maps_order(orders: Seq<ActiveOrder>, id: i32) -> bool {
    exists|i: int| 0 <= i < orders.len() && (#[trigger] orders[i]).order_id == id
}

/// Index of the template with the given id.
pub open spec fn template_index(ts: Seq<OrderTemplate>, id: Seq<char>, i: int) -> bool {
    0 <= i < ts.len() && ts[i].id@ == id
}

/// Some template has the given id.
pub open spec fn has_template(ts: Seq<OrderTemplate>, id: Seq<char>) -> bool {
    exists|i: int| template_index(ts, id, i)
}

/// Order ids are unique among the entries.
pub open spec fn orders_unique(orders: Seq<ActiveOrder>) -> bool {
    forall|i: int, j: int| 0 <= i < j < orders.len() ==> orders[i].order_id != orders[j].order_id
}

/// The failed cancellations' errors, joined by ", ".
pub open spec fn cancel_errors_text(parent: Option<String>, stop: Option<String>) -> Seq<char> {
    match (parent, stop) {
        (Some(a), Some(b)) => a@ + ", "@ + b@,
        (Some(a), None) => a@,
        (None, Some(b)) => b@,
        (None, None) => Seq::empty(),
    }
}

/// Some entry maps broker order `id` to template `template_id`.
pub open spec fn maps_to(orders: Seq<ActiveOrder>, id: i32, template_id: Seq<char>) -> bool {
    exists|i: int| 0 <= i < orders.len() && (#[trigger] orders[i]).order_id == id && orders[i].template_id@ == template_id
}

/// The entries of every order id other than the given ones are the same in
/// both sequences.
pub open spec fn same_entries_except(after: Seq<ActiveOrder>, before: Seq<ActiveOrder>, a: i32, b: i32) -> bool {
    forall|x: i32, t: Seq<char>| x != a && x != b ==> (maps_to(after, x, t) <==> maps_to(before, x, t))
}

/// Removes the entry of broker order `id`, keeping the others.
fn unmap_order(orders: &mut Vec<ActiveOrder>, id: i32)
    requires
        orders_unique(old(orders)@),
    ensures
        orders_unique(final(orders)@),
        !maps_order(final(orders)@, id),
        forall|x: i32| x != id ==> (maps_order(final(orders)@, x) <==> maps_order(old(orders)@, x)),
        same_entries_except(final(orders)@, old(orders)@, id, id),
{
    let mut i: usize = 0;
    while i < orders.len()
        invariant
            i <= orders@.len(),
            orders_unique(orders@),
            orders@ == old(orders)@,
            forall|j: int| 0 <= j < i ==> orders@[j].order_id != id,
        decreases orders@.len() - i,
    {
        if orders[i].order_id == id {
            let ghost before = orders@;
            orders.remove(i);
            assert forall|x: i32, t: Seq<char>| x != id implies
                (maps_to(orders@, x, t) <==> maps_to(before, x, t)) by {
                if maps_to(before, x, t) {
                    let k = choose|k: int| 0 <= k < before.len() && (#[trigger] before[k]).order_id == x && before[k].template_id@ == t;
                    let nk = if k < i { k } else { k - 1 };
                    assert(orders@[nk] == before[k]);
                }
                if maps_to(orders@, x, t) {
                    let k = choose|k: int| 0 <= k < orders@.len() && (#[trigger] orders@[k]).order_id == x && orders@[k].template_id@ == t;
                    let ok = if k < i { k } else { k + 1 };
                    assert(orders@[k] == before[ok]);
                }
            }
            assert forall|x: i32| x != id implies (maps_order(orders@, x) <==> maps_order(before, x)) by {
                if maps_order(before, x) {
                    let k = choose|k: int| 0 <= k < before.len() && (#[trigger] before[k]).order_id == x;
                    let nk = if k < i { k } else { k - 1 };
                    assert(orders@[nk] == before[k]);
                }
                if maps_order(orders@, x) {
                    let k = choose|k: int| 0 <= k < orders@.len() && (#[trigger] orders@[k]).order_id == x;
                    let ok = if k < i { k } else { k + 1 };
                    assert(orders@[k] == before[ok]);
                }
            }
            assert forall|j: int| i <= j < orders@.len() implies (#[trigger] orders@[j]).order_id != id by {
                assert(orders@[j] == before[j + 1]);
            }
            assert(!maps_order(orders@, id));
            assert(same_entries_except(orders@, before, id, id));
            return;
        }
        i = i + 1;
    }
    assert(same_entries_except(orders@, old(orders)@, id, id));
}

/// Maps broker order `id` to `template_id`, replacing an earlier entry.
fn map_order(orders: &mut Vec<ActiveOrder>, id: i32, template_id: String)
    requires
        orders_unique(old(orders)@),
    ensures
        orders_unique(final(orders)@),
        maps_order(final(orders)@, id),
        maps_to(final(orders)@, id, template_id@),
        forall|t: Seq<char>| maps_to(final(orders)@, id, t) ==> t == template_id@,
        forall|x: i32| x != id ==> (maps_order(final(orders)@, x) <==> maps_order(old(orders)@, x)),
        same_entries_except(final(orders)@, old(orders)@, id, id),
{
    let ghost tid = template_id@;
    unmap_order(orders, id);
    let ghost before = orders@;
    orders.push(ActiveOrder { order_id: id, template_id });
    let ghost last = orders@.len() - 1;
    assert(orders@[last].order_id == id && orders@[last].template_id@ == tid);
    assert forall|i: int, j: int| 0 <= i < j < orders@.len() implies orders@[i].order_id != orders@[j].order_id by {
        assert(orders@[i] == before[i]);
        if j < orders@.len() - 1 {
            assert(orders@[j] == before[j]);
        } else {
            assert(!maps_order(before, id));
            assert(before[i].order_id != id);
        }
    }
    assert forall|t: Seq<char>| maps_to(orders@, id, t) implies t == tid by {
        let k = choose|k: int| 0 <= k < orders@.len() && (#[trigger] orders@[k]).order_id == id && orders@[k].template_id@ == t;
        if k < last {
            assert(orders@[k] == before[k]);
            assert(maps_order(before, id));
        }
    }
    assert forall|x: i32, t: Seq<char>| x != id implies
        (maps_to(orders@, x, t) <==> maps_to(old(orders)@, x, t)) by {
        if maps_to(before, x, t) {
            let k = choose|k: int| 0 <= k < before.len() && (#[trigger] before[k]).order_id == x && before[k].template_id@ == t;
            assert(orders@[k] == before[k]);
        }
        if maps_to(orders@, x, t) {
            let k = choose|k: int| 0 <= k < orders@.len() && (#[trigger] orders@[k]).order_id == x && orders@[k].template_id@ == t;
            assert(orders@[k] == before[k]);
        }
        assert(maps_to(before, x, t) <==> maps_to(old(orders)@, x, t));
    }
    assert forall|x: i32| x != id implies (maps_order(orders@, x) <==> maps_order(before, x)) by {
        if maps_order(before, x) {
            let k = choose|k: int| 0 <= k < before.len() && (#[trigger] before[k]).order_id == x;
            assert(orders@[k] == before[k]);
        }
        if maps_order(orders@, x) {
            let k = choose|k: int| 0 <= k < orders@.len() && (#[trigger] orders@[k]).order_id == x;
            assert(orders@[k] == before[k]);
        }
    }
    assert(same_entries_except(orders@, old(orders)@, id, id));
}

/// The template in `t`'s place once its bracket is being sent with the
/// given broker ids.
pub open spec fn activating(t: OrderTemplate, parent: i32, stop: i32) -> OrderTemplate {
    OrderTemplate {
        status: OrderTemplateStatus::Activating,
        parent_order_id: Some(parent),
        stop_order_id: Some(stop),
        ..t
    }
}

/// The template in `t`'s place after a failed transmission or
/// cancellation left it without broker ids.
pub open spec fn failed_clear(t: OrderTemplate) -> OrderTemplate {
    OrderTemplate { status: OrderTemplateStatus::Failed, parent_order_id: None, stop_order_id: None, ..t }
}

impl IBClient {
    /// The selected account is connected.
    pub open spec fn account_ready(&self) -> bool {
        (self.active_account == Some(AccountType::Paper) && self.paper_connected)
            || (self.active_account == Some(AccountType::Live) && self.live_connected)
    }

    /// Template ids are unique and so are mapped order ids.
    pub open spec fn wf(&self) -> bool {
        &&& forall|i: int, j: int| 0 <= i < j < self.order_templates@.len()
            ==> self.order_templates@[i].id@ != self.order_templates@[j].id@
        &&& orders_unique(self.active_orders@)
    }

    /// The connection state.
    pub open spec fn status_spec(&self) -> ConnectionStatus {
        ConnectionStatus {
            paper_connected: self.paper_connected,
            live_connected: self.live_connected,
            active_account: self.active_account,
        }
    }

    /// No connection, no template, no live order; ids start at 1000.
    pub fn new() -> (r: IBClient)
        ensures
            r.wf(),
            !r.paper_connected && !r.live_connected,
            r.active_account is None,
            r.order_templates@.len() == 0,
            r.active_orders@.len() == 0,
            r.next_order_id == FIRST_ORDER_ID,
    {
        IBClient {
            paper_connected: false,
            live_connected: false,
            active_account: None,
            order_templates: Vec::new(),
            active_orders: Vec::new(),
            next_order_id: FIRST_ORDER_ID,
        }
    }

    /// Records the outcome of opening the paper connection: on success the
    /// paper account is connected and selected; on failure nothing changes.
    pub fn connect_paper(&mut self, outcome: Result<(), String>) -> (r: Result<(), AppError>)
        ensures
            r is Ok <==> outcome is Ok,
            outcome matches Err(e) ==> (r matches Err(AppError::IBConnection(m)) && m == e),
            outcome is Ok ==> final(self).status_spec() == (ConnectionStatus {
                paper_connected: true,
                live_connected: old(self).live_connected,
                active_account: Some(AccountType::Paper),
            }),
            outcome is Err ==> final(self).status_spec() == old(self).status_spec(),
            final(self).order_templates == old(self).order_templates,
            final(self).active_orders == old(self).active_orders,
            final(self).next_order_id == old(self).next_order_id,
    {
        match outcome {
            Ok(()) => {
                self.paper_connected = true;
                self.active_account = Some(AccountType::Paper);
                Ok(())
            },
            Err(e) => Err(AppError::IBConnection(e)),
        }
    }

    /// Records the outcome of opening the live connection: on success the
    /// live account is connected and selected; on failure nothing changes.
    pub fn connect_live(&mut self, outcome: Result<(), String>) -> (r: Result<(), AppError>)
        ensures
            r is Ok <==> outcome is Ok,
            outcome matches Err(e) ==> (r matches Err(AppError::IBConnection(m)) && m == e),
            outcome is Ok ==> final(self).status_spec() == (ConnectionStatus {
                paper_connected: old(self).paper_connected,
                live_connected: true,
                active_account: Some(AccountType::Live),
            }),
            outcome is Err ==> final(self).status_spec() == old(self).status_spec(),
            final(self).order_templates == old(self).order_templates,
            final(self).active_orders == old(self).active_orders,
            final(self).next_order_id == old(self).next_order_id,
    {
        match outcome {
            Ok(()) => {
                self.live_connected = true;
                self.active_account = Some(AccountType::Live);
                Ok(())
            },
            Err(e) => Err(AppError::IBConnection(e)),
        }
    }

    /// Drops both connections and the selection.
    pub fn disconnect(&mut self)
        ensures
            final(self).status_spec() == (ConnectionStatus {
                paper_connected: false,
                live_connected: false,
                active_account: None,
            }),
            final(self).order_templates == old(self).order_templates,
            final(self).active_orders == old(self).active_orders,
            final(self).next_order_id == old(self).next_order_id,
    {
        self.paper_connected = false;
        self.live_connected = false;
        self.active_account = None;
    }

    /// Selects the paper account; fails when it is not connected.
    pub fn switch_to_paper(&mut self) -> (r: Result<(), AppError>)
        ensures
            r is Ok <==> old(self).paper_connected,
            r matches Err(e) ==> e is IBConnection,
            final(self).active_account == (if old(self).paper_connected {
                Some(AccountType::Paper)
            } else {
                old(self).active_account
            }),
            final(self).paper_connected == old(self).paper_connected,
            final(self).live_connected == old(self).live_connected,
            final(self).order_templates == old(self).order_templates,
            final(self).active_orders == old(self).active_orders,
            final(self).next_order_id == old(self).next_order_id,
    {
        if self.paper_connected {
            self.active_account = Some(AccountType::Paper);
            Ok(())
        } else {
            Err(AppError::IBConnection("Paper account not connected".to_string()))
        }
    }

    /// Selects the live account; fails when it is not connected.
    pub fn switch_to_live(&mut self) -> (r: Result<(), AppError>)
        ensures
            r is Ok <==> old(self).live_connected,
            r matches Err(e) ==> e is IBConnection,
            final(self).active_account == (if old(self).live_connected {
                Some(AccountType::Live)
            } else {
                old(self).active_account
            }),
            final(self).paper_connected == old(self).paper_connected,
            final(self).live_connected == old(self).live_connected,
            final(self).order_templates == old(self).order_templates,
            final(self).active_orders == old(self).active_orders,
            final(self).next_order_id == old(self).next_order_id,
    {
        if self.live_connected {
            self.active_account = Some(AccountType::Live);
            Ok(())
        } else {
            Err(AppError::IBConnection("Live account not connected".to_string()))
        }
    }

    /// The connections and the selected account.
    pub fn get_connection_status(&self) -> (r: ConnectionStatus)
        ensures
            r == self.status_spec(),
    {
        ConnectionStatus {
            paper_connected: self.paper_connected,
            live_connected: self.live_connected,
            active_account: self.active_account,
        }
    }

    /// The selected account, provided that it is connected.
    pub fn get_active_account(&self) -> (r: Result<AccountType, AppError>)
        ensures
            r matches Ok(a) ==> self.active_account == Some(a),
            r is Ok <==> self.account_ready(),
            r matches Err(e) ==> e is IBConnection,
    {
        match self.active_account {
            Some(AccountType::Paper) => {
                if self.paper_connected {
                    Ok(AccountType::Paper)
                } else {
                    Err(AppError::IBConnection("Paper client not connected".to_string()))
                }
            },
            Some(AccountType::Live) => {
                if self.live_connected {
                    Ok(AccountType::Live)
                } else {
                    Err(AppError::IBConnection("Live client not connected".to_string()))
                }
            },
            None => Err(AppError::IBConnection("No active account selected".to_string())),
        }
    }

    /// Index of the template with id `template_id`.
    pub fn find_template(&self, template_id: &str) -> (r: Option<usize>)
        ensures
            r matches Some(i) ==> template_index(self.order_templates@, template_id@, i as int),
            r is None <==> !has_template(self.order_templates@, template_id@),
    {
        let mut i: usize = 0;
        while i < self.order_templates.len()
            invariant
                i <= self.order_templates@.len(),
                forall|j: int| 0 <= j < i ==> self.order_templates@[j].id@ != template_id@,
            decreases self.order_templates@.len() - i,
        {
            if same_text(self.order_templates[i].id.as_str(), template_id) {
                assert(template_index(self.order_templates@, template_id@, i as int));
                return Some(i);
            }
            i = i + 1;
        }
        assert forall|j: int| !template_index(self.order_templates@, template_id@, j) by {
            if 0 <= j < self.order_templates@.len() {
                assert(self.order_templates@[j].id@ != template_id@);
            }
        }
        None
    }

    /// A copy of the template with id `template_id`, if any.
    pub fn get_template(&self, template_id: &str) -> (r: Option<OrderTemplate>)
        ensures
            r matches Some(t) ==> exists|i: int| template_index(self.order_templates@, template_id@, i)
                && t == self.order_templates@[i],
            r is None <==> !has_template(self.order_templates@, template_id@),
    {
        match self.find_template(template_id) {
            Some(i) => Some(self.order_templates[i].snapshot()),
            None => None,
        }
    }

    /// Stores a valid template under its id, replacing one with the same
    /// id; returns the id. An invalid template is refused unchanged.
    pub fn create_template(&mut self, template: OrderTemplate) -> (r: Result<String, AppError>)
        requires
            old(self).wf(),
        ensures
            final(self).wf(),
            r is Ok <==> template_valid(template),
            r matches Err(e) ==> (e matches AppError::Validation(m) && m@ == validation_error(template))
                && *final(self) == *old(self),
            r matches Ok(id) ==> id == template.id && ({
                ||| exists|i: int| template_index(old(self).order_templates@, id@, i)
                    && final(self).order_templates@ == old(self).order_templates@.update(i, template)
                ||| !has_template(old(self).order_templates@, id@)
                    && final(self).order_templates@ == old(self).order_templates@.push(template)
            }),
            final(self).active_orders == old(self).active_orders,
            final(self).status_spec() == old(self).status_spec(),
            final(self).next_order_id == old(self).next_order_id,
    {
        if let Err(e) = template.validate() {
            return Err(AppError::Validation(e));
        }
        let id = template.id.clone();
        match self.find_template(id.as_str()) {
            Some(i) => {
                self.order_templates.set(i, template);
                assert(template_index(old(self).order_templates@, id@, i as int));
            },
            None => {
                self.order_templates.push(template);
                assert forall|i: int, j: int| 0 <= i < j < self.order_templates@.len()
                    implies self.order_templates@[i].id@ != self.order_templates@[j].id@ by {
                    if j == self.order_templates@.len() - 1 {
                        assert(!template_index(old(self).order_templates@, id@, i));
                    }
                }
            },
        }
        Ok(id)
    }

    /// Replaces the stored template with the same id by a valid template.
    /// Fails with a validation error for an invalid one, and with not-found
    /// when no template has its id.
    pub fn update_template(&mut self, template: OrderTemplate) -> (r: Result<(), AppError>)
        requires
            old(self).wf(),
        ensures
            final(self).wf(),
            r is Ok <==> template_valid(template) && has_template(old(self).order_templates@, template.id@),
            !template_valid(template) ==> (r matches Err(AppError::Validation(m)) && m@ == validation_error(template)),
            template_valid(template) && !has_template(old(self).order_templates@, template.id@)
                ==> (r matches Err(e) && e is NotFound),
            r is Err ==> *final(self) == *old(self),
            r is Ok ==> exists|i: int| template_index(old(self).order_templates@, template.id@, i)
                && final(self).order_templates@ == old(self).order_templates@.update(i, template),
            final(self).active_orders == old(self).active_orders,
            final(self).status_spec() == old(self).status_spec(),
            final(self).next_order_id == old(self).next_order_id,
    {
        if let Err(e) = template.validate() {
            return Err(AppError::Validation(e));
        }
        match self.find_template(template.id.as_str()) {
            Some(i) => {
                let ghost id = template.id@;
                self.order_templates.set(i, template);
                assert(template_index(old(self).order_templates@, id, i as int));
                Ok(())
            },
            None => Err(AppError::NotFound("Template not found".to_string())),
        }
    }

    /// Removes the template with id `template_id`. Fails with not-found when
    /// there is none, and with a validation error while it is live.
    pub fn delete_template(&mut self, template_id: &str) -> (r: Result<(), AppError>)
        requires
            old(self).wf(),
        ensures
            final(self).wf(),
            !has_template(old(self).order_templates@, template_id@) ==> (r matches Err(e) && e is NotFound),
            forall|i: int| #[trigger] template_index(old(self).order_templates@, template_id@, i) ==> {
                if old(self).order_templates@[i].status == OrderTemplateStatus::Active {
                    (r matches Err(e) && e is Validation)
                } else {
                    r is Ok && final(self).order_templates@ == old(self).order_templates@.remove(i)
                }
            },
            r is Err ==> *final(self) == *old(self),
            final(self).active_orders == old(self).active_orders,
            final(self).status_spec() == old(self).status_spec(),
            final(self).next_order_id == old(self).next_order_id,
    {
        match self.find_template(template_id) {
            Some(i) => {
                if self.order_templates[i].is_active() {
                    return Err(AppError::Validation("Cannot delete active template".to_string()));
                }
                self.order_templates.remove(i);
                assert forall|a: int, b: int| 0 <= a < b < self.order_templates@.len()
                    implies self.order_templates@[a].id@ != self.order_templates@[b].id@ by {
                    let oa = if a < i { a } else { a + 1 };
                    let ob = if b < i { b } else { b + 1 };
                    assert(self.order_templates@[a] == old(self).order_templates@[oa]);
                    assert(self.order_templates@[b] == old(self).order_templates@[ob]);
                }
                Ok(())
            },
            None => Err(AppError::NotFound("Template not found".to_string())),
        }
    }

    /// Starts activating template `template_id`: with a connected account
    /// selected and the template inactive or failed, takes the next two
    /// broker ids (the stop's follows the entry's), marks the template
    /// activating with both ids, and returns the bracket to place: a limit
    /// entry held back from transmission, then a GTC stop of the opposite
    /// action attached to it that transmits both.
    pub fn activate_template(&mut self, template_id: &str) -> (r: Result<BracketOrder, AppError>)
        requires
            old(self).wf(),
        ensures
            final(self).wf(),
            r is Ok <==> old(self).account_ready() && old(self).next_order_id <= i32::MAX - 2
                && exists|i: int| template_index(old(self).order_templates@, template_id@, i)
                    && (old(self).order_templates@[i].status == OrderTemplateStatus::Inactive
                        || old(self).order_templates@[i].status == OrderTemplateStatus::Failed),
            !old(self).account_ready() ==> (r matches Err(e) && e is IBConnection),
            old(self).account_ready() && !has_template(old(self).order_templates@, template_id@)
                ==> (r matches Err(e) && e is NotFound),
            r is Err && old(self).account_ready() && has_template(old(self).order_templates@, template_id@)
                ==> (r matches Err(e) && e is Validation),
            r is Err ==> *final(self) == *old(self),
            r matches Ok(plan) ==> exists|i: int| template_index(old(self).order_templates@, template_id@, i) && {
                let t = old(self).order_templates@[i];
                let p = old(self).next_order_id;
                &&& final(self).order_templates@ == old(self).order_templates@.update(i, activating(t, p, (p + 1) as i32))
                &&& final(self).next_order_id == p + 2
                &&& plan.symbol == t.symbol
                &&& plan.parent.order_id == p
                &&& plan.parent.action == entry_action(t.side)
                &&& plan.parent.order_type@ == "LMT"@
                &&& plan.parent.quantity == t.quantity
                &&& plan.parent.limit_price == Some(t.limit_price)
                &&& plan.parent.aux_price is None
                &&& plan.parent.parent_id == 0
                &&& plan.parent.tif@ == tif_code(t.time_in_force)
                &&& !plan.parent.transmit
                &&& plan.stop.order_id == p + 1
                &&& plan.stop.action == exit_action(t.side)
                &&& plan.stop.order_type@ == "STP"@
                &&& plan.stop.quantity == t.quantity
                &&& plan.stop.limit_price is None
                &&& plan.stop.aux_price == Some(t.stop_price)
                &&& plan.stop.parent_id == p
                &&& plan.stop.tif@ == "GTC"@
                &&& plan.stop.transmit
            },
            final(self).active_orders == old(self).active_orders,
            final(self).status_spec() == old(self).status_spec(),
    {
        if let Err(e) = self.get_active_account() {
            return Err(e);
        }
        let i = match self.find_template(template_id) {
            Some(i) => i,
            None => {
                return Err(AppError::NotFound("Template not found".to_string()));
            },
        };
        if !self.order_templates[i].can_activate() {
            return Err(AppError::Validation("Template cannot be activated in current state".to_string()));
        }
        if self.next_order_id > i32::MAX - 2 {
            return Err(AppError::Validation("Broker order ids are exhausted".to_string()));
        }
        let parent_id = self.next_order_id;
        let stop_id = parent_id + 1;
        self.next_order_id = parent_id + 2;

        let mut t = self.order_templates[i].snapshot();
        let parent = OrderTicket {
            order_id: parent_id,
            action: t.side.to_action(),
            order_type: "LMT".to_string(),
            quantity: t.quantity,
            limit_price: Some(t.limit_price),
            aux_price: None,
            parent_id: 0,
            tif: t.time_in_force.to_string(),
            transmit: false,
        };
        let stop = OrderTicket {
            order_id: stop_id,
            action: t.side.stop_action(),
            order_type: "STP".to_string(),
            quantity: t.quantity,
            limit_price: None,
            aux_price: Some(t.stop_price),
            parent_id: parent_id,
            tif: "GTC".to_string(),
            transmit: true,
        };
        let symbol = t.symbol.clone();
        t.status = OrderTemplateStatus::Activating;
        t.parent_order_id = Some(parent_id);
        t.stop_order_id = Some(stop_id);
        self.order_templates.set(i, t);
        assert(template_index(old(self).order_templates@, template_id@, i as int));
        Ok(BracketOrder { symbol, parent, stop })
    }

    /// Ends the activation of template `template_id` with the broker's
    /// outcome. When both orders were placed the template becomes active
    /// and both ids are mapped to it; otherwise it becomes failed, loses
    /// its ids, neither id stays mapped, and the broker's error is returned.
    /// Fails with not-found for an unknown id, and with a validation error
    /// for a template that is not activating with both ids.
    pub fn complete_activation(&mut self, template_id: &str, outcome: PlacementOutcome) -> (r: Result<(), AppError>)
        requires
            old(self).wf(),
        ensures
            final(self).wf(),
            !has_template(old(self).order_templates@, template_id@) ==> (r matches Err(e) && e is NotFound),
            forall|i: int| #[trigger] template_index(old(self).order_templates@, template_id@, i) ==> {
                let t = old(self).order_templates@[i];
                if t.status != OrderTemplateStatus::Activating || t.parent_order_id is None || t.stop_order_id is None {
                    (r matches Err(e) && e is Validation) && *final(self) == *old(self)
                } else if outcome is Placed {
                    &&& r is Ok
                    &&& final(self).order_templates@[i].activated_at is Some
                    &&& final(self).order_templates@ == old(self).order_templates@.update(i, OrderTemplate {
                        status: OrderTemplateStatus::Active,
                        activated_at: final(self).order_templates@[i].activated_at,
                        ..t
                    })
                    &&& maps_to(final(self).active_orders@, t.parent_order_id->Some_0, template_id@)
                    &&& maps_to(final(self).active_orders@, t.stop_order_id->Some_0, template_id@)
                    &&& same_entries_except(final(self).active_orders@, old(self).active_orders@,
                        t.parent_order_id->Some_0, t.stop_order_id->Some_0)
                } else {
                    &&& (r matches Err(e) && e is IBConnection)
                    &&& final(self).order_templates@ == old(self).order_templates@.update(i, failed_clear(t))
                    &&& !maps_order(final(self).active_orders@, t.parent_order_id->Some_0)
                    &&& !maps_order(final(self).active_orders@, t.stop_order_id->Some_0)
                    &&& same_entries_except(final(self).active_orders@, old(self).active_orders@,
                        t.parent_order_id->Some_0, t.stop_order_id->Some_0)
                }
            },
            r is Err && !has_template(old(self).order_templates@, template_id@) ==> *final(self) == *old(self),
            final(self).status_spec() == old(self).status_spec(),
            final(self).next_order_id == old(self).next_order_id,
    {
        let i = match self.find_template(template_id) {
            Some(i) => i,
            None => {
                return Err(AppError::NotFound("Template not found".to_string()));
            },
        };
        proof {
            assert forall|j: int| #[trigger] template_index(old(self).order_templates@, template_id@, j) implies j == i by {
                if j != i {
                    assert(old(self).order_templates@[j].id@ != old(self).order_templates@[i as int].id@);
                }
            }
        }
        let mut t = self.order_templates[i].snapshot();
        if t.status != OrderTemplateStatus::Activating {
            return Err(AppError::Validation("Template is not being activated".to_string()));
        }
        let (parent_id, stop_id) = match (t.parent_order_id, t.stop_order_id) {
            (Some(p), Some(s)) => (p, s),
            _ => {
                return Err(AppError::Validation("Template has no broker order ids".to_string()));
            },
        };
        match outcome {
            PlacementOutcome::Placed => {
                map_order(&mut self.active_orders, parent_id, t.id.clone());
                let ghost mid = self.active_orders@;
                map_order(&mut self.active_orders, stop_id, t.id.clone());
                assert(parent_id != stop_id ==> maps_order(self.active_orders@, parent_id));
                t.status = OrderTemplateStatus::Active;
                t.activated_at = Some(current_unix_time());
                self.order_templates.set(i, t);
                Ok(())
            },
            PlacementOutcome::ParentRejected(e) => {
                unmap_order(&mut self.active_orders, parent_id);
                unmap_order(&mut self.active_orders, stop_id);
                t.status = OrderTemplateStatus::Failed;
                t.parent_order_id = None;
                t.stop_order_id = None;
                self.order_templates.set(i, t);
                Err(AppError::IBConnection(e))
            },
            PlacementOutcome::StopRejected(e) => {
                unmap_order(&mut self.active_orders, parent_id);
                unmap_order(&mut self.active_orders, stop_id);
                t.status = OrderTemplateStatus::Failed;
                t.parent_order_id = None;
                t.stop_order_id = None;
                self.order_templates.set(i, t);
                Err(AppError::IBConnection(e))
            },
        }
    }

    /// Starts cancelling template `template_id`: with a connected account
    /// selected and the template live, marks it deactivating and returns
    /// its two broker ids to cancel.
    pub fn deactivate_template(&mut self, template_id: &str) -> (r: Result<CancelPlan, AppError>)
        requires
            old(self).wf(),
        ensures
            final(self).wf(),
            r is Ok <==> old(self).account_ready()
                && exists|i: int| template_index(old(self).order_templates@, template_id@, i)
                    && old(self).order_templates@[i].status == OrderTemplateStatus::Active,
            !old(self).account_ready() ==> (r matches Err(e) && e is IBConnection),
            old(self).account_ready() && !has_template(old(self).order_templates@, template_id@)
                ==> (r matches Err(e) && e is NotFound),
            r is Err && old(self).account_ready() && has_template(old(self).order_templates@, template_id@)
                ==> (r matches Err(e) && e is Validation),
            r is Err ==> *final(self) == *old(self),
            r matches Ok(plan) ==> exists|i: int| template_index(old(self).order_templates@, template_id@, i) && {
                let t = old(self).order_templates@[i];
                &&& final(self).order_templates@ == old(self).order_templates@.update(i,
                    OrderTemplate { status: OrderTemplateStatus::Deactivating, ..t })
                &&& plan.parent_order_id == t.parent_order_id
                &&& plan.stop_order_id == t.stop_order_id
            },
            final(self).active_orders == old(self).active_orders,
            final(self).status_spec() == old(self).status_spec(),
            final(self).next_order_id == old(self).next_order_id,
    {
        if let Err(e) = self.get_active_account() {
            return Err(e);
        }
        let i = match self.find_template(template_id) {
            Some(i) => i,
            None => {
                return Err(AppError::NotFound("Template not found".to_string()));
            },
        };
        if !self.order_templates[i].can_deactivate() {
            return Err(AppError::Validation("Template cannot be deactivated in current state".to_string()));
        }
        let mut t = self.order_templates[i].snapshot();
        let plan = CancelPlan { parent_order_id: t.parent_order_id, stop_order_id: t.stop_order_id };
        t.status = OrderTemplateStatus::Deactivating;
        self.order_templates.set(i, t);
        assert(template_index(old(self).order_templates@, template_id@, i as int));
        Ok(plan)
    }

    /// Ends the cancellation of template `template_id` with the broker's
    /// answer for each order (`None` when it was cancelled). Each cancelled
    /// order leaves the map. With no error the template becomes inactive
    /// without ids; otherwise it becomes failed, keeps its ids, the orders
    /// that could not be cancelled stay mapped, and the errors are
    /// returned joined by ", ". Fails with not-found for an unknown id and with a
    /// validation error for a template that is not deactivating.
    pub fn complete_deactivation(&mut self, template_id: &str, parent_error: Option<String>, stop_error: Option<String>)
        -> (r: Result<(), AppError>)
        requires
            old(self).wf(),
        ensures
            final(self).wf(),
            !has_template(old(self).order_templates@, template_id@) ==> (r matches Err(e) && e is NotFound),
            forall|i: int| #[trigger] template_index(old(self).order_templates@, template_id@, i) ==> {
                let t = old(self).order_templates@[i];
                if t.status != OrderTemplateStatus::Deactivating {
                    (r matches Err(e) && e is Validation) && *final(self) == *old(self)
                } else {
                    &&& (t.parent_order_id is Some && parent_error is None
                        ==> !maps_order(final(self).active_orders@, t.parent_order_id->Some_0))
                    &&& (t.stop_order_id is Some && stop_error is None
                        ==> !maps_order(final(self).active_orders@, t.stop_order_id->Some_0))
                    &&& forall|x: i32, tid: Seq<char>| !(parent_error is None && t.parent_order_id == Some(x))
                        && !(stop_error is None && t.stop_order_id == Some(x))
                        ==> (maps_to(final(self).active_orders@, x, tid) <==> maps_to(old(self).active_orders@, x, tid))
                    &&& if parent_error is None && stop_error is None {
                        &&& r is Ok
                        &&& final(self).order_templates@ == old(self).order_templates@.update(i, OrderTemplate {
                            status: OrderTemplateStatus::Inactive,
                            parent_order_id: None,
                            stop_order_id: None,
                            ..t
                        })
                    } else {
                        &&& (r matches Err(AppError::IBConnection(m)) && m@ == cancel_errors_text(parent_error, stop_error))
                        &&& final(self).order_templates@ == old(self).order_templates@.update(i,
                            OrderTemplate { status: OrderTemplateStatus::Failed, ..t })
                    }
                }
            },
            r is Err && !has_template(old(self).order_templates@, template_id@) ==> *final(self) == *old(self),
            final(self).status_spec() == old(self).status_spec(),
            final(self).next_order_id == old(self).next_order_id,
    {
        let i = match self.find_template(template_id) {
            Some(i) => i,
            None => {
                return Err(AppError::NotFound("Template not found".to_string()));
            },
        };
        proof {
            assert forall|j: int| #[trigger] template_index(old(self).order_templates@, template_id@, j) implies j == i by {
                if j != i {
                    assert(old(self).order_templates@[j].id@ != old(self).order_templates@[i as int].id@);
                }
            }
        }
        let mut t = self.order_templates[i].snapshot();
        if t.status != OrderTemplateStatus::Deactivating {
            return Err(AppError::Validation("Template is not being deactivated".to_string()));
        }
        if let Some(p) = t.parent_order_id {
            if parent_error.is_none() {
                unmap_order(&mut self.active_orders, p);
            }
        }
        if let Some(s) = t.stop_order_id {
            if stop_error.is_none() {
                unmap_order(&mut self.active_orders, s);
            }
        }
        match (parent_error, stop_error) {
            (None, None) => {
                t.status = OrderTemplateStatus::Inactive;
                t.parent_order_id = None;
                t.stop_order_id = None;
                self.order_templates.set(i, t);
                Ok(())
            },
            (Some(e), None) => {
                t.status = OrderTemplateStatus::Failed;
                self.order_templates.set(i, t);
                Err(AppError::IBConnection(e))
            },
            (Some(e), Some(f)) => {
                t.status = OrderTemplateStatus::Failed;
                self.order_templates.set(i, t);
                Err(AppError::IBConnection(e.concat(", ").concat(f.as_str())))
            },
            (None, Some(e)) => {
                t.status = OrderTemplateStatus::Failed;
                self.order_templates.set(i, t);
                Err(AppError::IBConnection(e))
            },
        }
    }

    /// Checks a request for historical bars: a connected account must be
    /// selected, then the bar size must be "1 day" or "1 hour". Returns the
    /// account to ask and the bar size.
    pub fn historical_request(&self, bar_size: &str) -> (r: Result<(AccountType, BarSize), AppError>)
        ensures
            !self.account_ready() ==> (r matches Err(e) && e is IBConnection),
            self.account_ready() && !(bar_size@ == "1 day"@ || bar_size@ == "1 hour"@)
                ==> (r matches Err(e) && e is Validation),
            r is Ok <==> self.account_ready() && (bar_size@ == "1 day"@ || bar_size@ == "1 hour"@),
            r matches Ok(p) ==> self.active_account == Some(p.0)
                && (p.1 == BarSize::Day <==> bar_size@ == "1 day"@),
    {
        let account = match self.get_active_account() {
            Ok(a) => a,
            Err(e) => {
                return Err(e);
            },
        };
        match parse_bar_size(bar_size) {
            Ok(b) => Ok((account, b)),
            Err(e) => Err(e),
        }
    }

    /// Copies of all templates.
    pub fn get_all_templates(&self) -> (r: Vec<OrderTemplate>)
        ensures
            r@ == self.order_templates@,
    {
        let mut r: Vec<OrderTemplate> = Vec::new();
        let mut i: usize = 0;
        while i < self.order_templates.len()
            invariant
                i <= self.order_templates@.len(),
                r@ == self.order_templates@.subrange(0, i as int),
            decreases self.order_templates@.len() - i,
        {
            r.push(self.order_templates[i].snapshot());
            i = i + 1;
        }
        assert(r@ =~= self.order_templates@);
        r
    }
}

} // verus!
