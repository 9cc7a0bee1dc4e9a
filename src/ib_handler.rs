use vstd::prelude::*;
use crate::client::{has_template, template_index, AccountType, IBClient};
use crate::atr::{ATRResult, HistoricalData};
use crate::error::AppError;
use crate::runtime::UIMessage;
use crate::template::{template_valid, OrderTemplate, DEFAULT_RISK_PER_TRADE};
use crate::types::{OrderSide, OrderTemplateStatus, TimeInForce, TradingModel};

verus! {

/// Broker requests that change or read only the client's own state.
pub enum IBMessage {
    SwitchToPaper,
    SwitchToLive,
    GetConnectionStatus,
    CreateTemplate {
        name: String,
        symbol: String,
        side: OrderSide,
        quantity: i64,
        limit_price: i64,
        stop_price: i64,
        time_in_force: TimeInForce,
        model: TradingModel,
    },
    UpdateTemplate { template: OrderTemplate },
    DeleteTemplate { template_id: String },
    GetTemplate { template_id: String },
    GetAllTemplates,
}

/// The answer to a broker request.
pub enum IBReply {
    /// Outcome of a request that returns nothing.
    Done(Result<(), AppError>),
    /// Outcome of a creation: the new template's id.
    Created(Result<String, AppError>),
    Status { paper_connected: bool, live_connected: bool },
    Template(Option<OrderTemplate>),
    Templates(Vec<OrderTemplate>),
    Historical(Result<HistoricalData, AppError>),
    Atr(Result<ATRResult, AppError>),
}

/// How a broker request that needs the network ended, once the client's
/// own steps have been taken.
pub enum BrokerOutcome {
    ConnectPaper(Result<(), AppError>),
    ConnectLive(Result<(), AppError>),
    Disconnected,
    Activated(Result<(), AppError>),
    Deactivated(Result<(), AppError>),
    HistoricalData(Result<HistoricalData, AppError>),
    FilteredAtr(Result<ATRResult, AppError>),
    MarketDataSubscribed(Result<(), AppError>),
    MarketDataUnsubscribed,
    AccountSummaryRequested,
    PositionsRequested,
}

/// The notification of the current templates.
fn templates_update(client: &IBClient) -> (r: UIMessage)
    ensures
        r matches UIMessage::IBOrderTemplateUpdate { templates } && templates@ == client.order_templates@,
{
    UIMessage::IBOrderTemplateUpdate { templates: client.get_all_templates() }
}

/// The connection state after an account switch, as notified.
pub open spec fn status_note(c: IBClient) -> UIMessage {
    UIMessage::IBConnectionStatus {
        paper_connected: c.paper_connected,
        live_connected: c.live_connected,
        active_account: c.active_account,
    }
}

/// A status message, then the templates as they now are.
pub open spec fn template_notes(after: IBClient, ui: Seq<UIMessage>) -> bool {
    &&& ui.len() == 2
    &&& ui[0] is StatusMessage
    &&& ui[1] matches UIMessage::IBOrderTemplateUpdate { templates } && templates@ == after.order_templates@
}

/// `t` is a new template made of the given fields: inactive, without
/// broker ids, technical stop or notes, with the default risk budget.
pub open spec fn created_from(
    t: OrderTemplate,
    name: String,
    symbol: String,
    side: OrderSide,
    quantity: i64,
    limit_price: i64,
    stop_price: i64,
    time_in_force: TimeInForce,
    model: TradingModel,
) -> bool {
    &&& t.name == name && t.symbol == symbol && t.side == side
    &&& t.quantity == quantity && t.limit_price == limit_price && t.stop_price == stop_price
    &&& t.time_in_force == time_in_force && t.model == model
    &&& t.status == OrderTemplateStatus::Inactive
    &&& t.parent_order_id is None && t.stop_order_id is None
    &&& t.technical_stop_price is None && t.activated_at is None && t.notes is None
    &&& !t.is_read_only && t.risk_per_trade == DEFAULT_RISK_PER_TRADE
}

/// The outcome of a switch to an account that is connected or not.
pub open spec fn switch_handled(
    before: IBClient,
    after: IBClient,
    connected: bool,
    selected: AccountType,
    reply: IBReply,
    ui: Seq<UIMessage>,
) -> bool {
    &&& reply matches IBReply::Done(res) && (res is Ok <==> connected)
    &&& after.active_account == (if connected { Some(selected) } else { before.active_account })
    &&& after.order_templates == before.order_templates
    &&& connected ==> ui.len() == 2 && ui[0] is StatusMessage && ui[1] == status_note(after)
    &&& !connected ==> ui.len() == 0
}

/// What handling `msg` does: the client state `before` becomes `after`,
/// with the given reply and notifications.
pub open spec fn ib_handled(before: IBClient, after: IBClient, msg: IBMessage, reply: IBReply, ui: Seq<UIMessage>) -> bool {
    match msg {
        IBMessage::SwitchToPaper => switch_handled(before, after, before.paper_connected, AccountType::Paper, reply, ui),
        IBMessage::SwitchToLive => switch_handled(before, after, before.live_connected, AccountType::Live, reply, ui),
        IBMessage::GetConnectionStatus => {
            &&& after == before
            &&& ui.len() == 0
            &&& reply == IBReply::Status { paper_connected: before.paper_connected, live_connected: before.live_connected }
        },
        IBMessage::CreateTemplate { name, symbol, side, quantity, limit_price, stop_price, time_in_force, model } => {
            let valid = quantity > 0 && limit_price > 0 && stop_price > 0
                && (side == OrderSide::Long ==> stop_price < limit_price)
                && (side == OrderSide::Short ==> stop_price > limit_price);
            &&& reply matches IBReply::Created(res) && (res is Ok <==> valid)
            &&& valid ==> template_notes(after, ui)
            &&& reply matches IBReply::Created(res) && (res matches Ok(id) ==> exists|k: int|
                0 <= k < after.order_templates@.len() && {
                    let t = #[trigger] after.order_templates@[k];
                    &&& t.id == id
                    &&& created_from(t, name, symbol, side, quantity, limit_price, stop_price, time_in_force, model)
                })
            &&& !valid ==> after == before && ui.len() == 1
                && (reply matches IBReply::Created(Err(e)) && ui[0] == UIMessage::ErrorMessage(e.text()))
        },
        IBMessage::UpdateTemplate { template } => {
            let ok = template_valid(template) && has_template(before.order_templates@, template.id@);
            &&& reply matches IBReply::Done(res) && (res is Ok <==> ok)
            &&& ok ==> template_notes(after, ui) && exists|i: int| template_index(before.order_templates@, template.id@, i)
                && after.order_templates@ == before.order_templates@.update(i, template)
            &&& !ok ==> after == before && ui.len() == 0
        },
        IBMessage::DeleteTemplate { template_id } => {
            let ok = exists|i: int| template_index(before.order_templates@, template_id@, i)
                && before.order_templates@[i].status != OrderTemplateStatus::Active;
            &&& reply matches IBReply::Done(res) && (res is Ok <==> ok)
            &&& ok ==> template_notes(after, ui) && exists|i: int| template_index(before.order_templates@, template_id@, i)
                && after.order_templates@ == before.order_templates@.remove(i)
            &&& !ok ==> after == before && ui.len() == 0
        },
        IBMessage::GetTemplate { template_id } => {
            &&& after == before
            &&& ui.len() == 0
            &&& reply matches IBReply::Template(t) && (t is None <==> !has_template(before.order_templates@, template_id@))
            &&& reply matches IBReply::Template(t) && (t matches Some(found) ==> exists|i: int|
                template_index(before.order_templates@, template_id@, i) && found == before.order_templates@[i])
        },
        IBMessage::GetAllTemplates => {
            &&& after == before
            &&& ui.len() == 0
            &&& reply matches IBReply::Templates(ts) && ts@ == before.order_templates@
        },
    }
}

/// Handles one broker request against the client's state. Switching the
/// account reports the new connection state; creating, updating and
/// deleting a template report the templates after the change; a failed
/// switch, update or delete sends nothing to the interface, a failed
/// creation an error message. Returns the reply and the notifications in
/// the order they are sent.
pub fn handle_ib_message(client: &mut IBClient, msg: IBMessage) -> (r: (IBReply, Vec<UIMessage>))
    requires
        old(client).wf(),
    ensures
        final(client).wf(),
        final(client).next_order_id == old(client).next_order_id,
        final(client).active_orders == old(client).active_orders,
        ib_handled(*old(client), *final(client), msg, r.0, r.1@),
{
    let mut ui: Vec<UIMessage> = Vec::new();
    match msg {
        IBMessage::SwitchToPaper => {
            let res = client.switch_to_paper();
            if res.is_ok() {
                ui.push(UIMessage::StatusMessage("Switched to paper account".to_string()));
                ui.push(UIMessage::connection_status(client.get_connection_status()));
            }
            (IBReply::Done(res), ui)
        },
        IBMessage::SwitchToLive => {
            let res = client.switch_to_live();
            if res.is_ok() {
                ui.push(UIMessage::StatusMessage("Switched to LIVE account".to_string()));
                ui.push(UIMessage::connection_status(client.get_connection_status()));
            }
            (IBReply::Done(res), ui)
        },
        IBMessage::GetConnectionStatus => {
            let status = client.get_connection_status();
            (IBReply::Status { paper_connected: status.paper_connected, live_connected: status.live_connected }, ui)
        },
        IBMessage::CreateTemplate { name, symbol, side, quantity, limit_price, stop_price, time_in_force, model } => {
            let template = OrderTemplate::new(name, symbol, side, quantity, limit_price, stop_price, time_in_force, model);
            let ghost made = template;
            let res = client.create_template(template);
            proof {
                if res is Ok {
                    if exists|i: int| template_index(old(client).order_templates@, made.id@, i)
                        && client.order_templates@ == old(client).order_templates@.update(i, made) {
                        let i = choose|i: int| template_index(old(client).order_templates@, made.id@, i)
                            && client.order_templates@ == old(client).order_templates@.update(i, made);
                        assert(client.order_templates@[i] == made);
                    } else {
                        assert(client.order_templates@[client.order_templates@.len() - 1] == made);
                    }
                }
            }
            match &res {
                Ok(_) => {
                    ui.push(UIMessage::StatusMessage("Created template".to_string()));
                    ui.push(templates_update(client));
                },
                Err(e) => {
                    ui.push(UIMessage::ErrorMessage(e.message().clone()));
                },
            }
            (IBReply::Created(res), ui)
        },
        IBMessage::UpdateTemplate { template } => {
            let res = client.update_template(template);
            if res.is_ok() {
                ui.push(UIMessage::StatusMessage("Template updated".to_string()));
                ui.push(templates_update(client));
            }
            (IBReply::Done(res), ui)
        },
        IBMessage::DeleteTemplate { template_id } => {
            let res = client.delete_template(template_id.as_str());
            if res.is_ok() {
                ui.push(UIMessage::StatusMessage("Template deleted".to_string()));
                ui.push(templates_update(client));
            }
            (IBReply::Done(res), ui)
        },
        IBMessage::GetTemplate { template_id } => {
            let t = client.get_template(template_id.as_str());
            (IBReply::Template(t), ui)
        },
        IBMessage::GetAllTemplates => {
            let ts = client.get_all_templates();
            (IBReply::Templates(ts), ui)
        },
    }
}

/// On success a status message, then `note`; on failure the error's text.
pub open spec fn reported_with(res: Result<(), AppError>, note: UIMessage, ui: Seq<UIMessage>) -> bool {
    match res {
        Ok(_) => ui.len() == 2 && ui[0] is StatusMessage && ui[1] == note,
        Err(e) => ui == seq![UIMessage::ErrorMessage(e.text())],
    }
}

/// On success a status message; on failure the error's text.
pub open spec fn reported<T>(res: Result<T, AppError>, ui: Seq<UIMessage>) -> bool {
    match res {
        Ok(_) => ui.len() == 1 && ui[0] is StatusMessage,
        Err(e) => ui == seq![UIMessage::ErrorMessage(e.text())],
    }
}

/// The templates of the client, as notified.
pub open spec fn templates_note_of(templates: Seq<OrderTemplate>, note: UIMessage) -> bool {
    note matches UIMessage::IBOrderTemplateUpdate { templates: ts } && ts@ == templates
}

/// The reply and notifications for a broker outcome, given the client state
/// after the step.
pub open spec fn outcome_reported(client: IBClient, outcome: BrokerOutcome, reply: IBReply, ui: Seq<UIMessage>) -> bool {
    match outcome {
        BrokerOutcome::ConnectPaper(res) => reply == IBReply::Done(res) && reported_with(res, status_note(client), ui),
        BrokerOutcome::ConnectLive(res) => reply == IBReply::Done(res) && reported_with(res, status_note(client), ui),
        BrokerOutcome::Disconnected => {
            &&& reply == IBReply::Done(Ok(()))
            &&& ui.len() == 2 && ui[0] is StatusMessage && ui[1] == status_note(client)
        },
        BrokerOutcome::Activated(res) | BrokerOutcome::Deactivated(res) => {
            &&& reply == IBReply::Done(res)
            &&& res is Ok ==> ui.len() == 2 && ui[0] is StatusMessage && templates_note_of(client.order_templates@, ui[1])
            &&& res matches Err(e) ==> ui == seq![UIMessage::ErrorMessage(e.text())]
        },
        BrokerOutcome::HistoricalData(res) => {
            &&& reply == IBReply::Historical(res)
            &&& reported(res, ui)
        },
        BrokerOutcome::FilteredAtr(res) => {
            &&& reply == IBReply::Atr(res)
            &&& reported(res, ui)
        },
        BrokerOutcome::MarketDataSubscribed(res) => {
            &&& reply == IBReply::Done(res)
            &&& res is Ok ==> ui.len() == 1 && ui[0] is StatusMessage
            &&& res is Err ==> ui.len() == 0
        },
        BrokerOutcome::MarketDataUnsubscribed => reply == IBReply::Done(Ok(())) && ui.len() == 0,
        BrokerOutcome::AccountSummaryRequested | BrokerOutcome::PositionsRequested => {
            &&& reply matches IBReply::Done(Err(e)) && e is Custom
            &&& ui.len() == 0
        },
    }
}

/// Turns the outcome of a broker step into the reply to the requester and
/// the notifications for the interface: connecting and disconnecting
/// report the connection state, activating and deactivating the
/// templates, other successes a status message; a failure shows its
/// error, except for a market-data subscription, which is only answered.
/// Account summaries and positions are not offered by the broker link.
pub fn report_broker_outcome(client: &IBClient, outcome: BrokerOutcome) -> (r: (IBReply, Vec<UIMessage>))
    ensures
        outcome_reported(*client, outcome, r.0, r.1@),
{
    let mut ui: Vec<UIMessage> = Vec::new();
    match outcome {
        BrokerOutcome::ConnectPaper(res) | BrokerOutcome::ConnectLive(res) => {
            match &res {
                Ok(()) => {
                    ui.push(UIMessage::StatusMessage("Connected to the broker".to_string()));
                    ui.push(UIMessage::connection_status(client.get_connection_status()));
                },
                Err(e) => ui.push(UIMessage::ErrorMessage(e.message().clone())),
            }
            (IBReply::Done(res), ui)
        },
        BrokerOutcome::Disconnected => {
            ui.push(UIMessage::StatusMessage("Disconnected from IB".to_string()));
            ui.push(UIMessage::connection_status(client.get_connection_status()));
            (IBReply::Done(Ok(())), ui)
        },
        BrokerOutcome::Activated(res) | BrokerOutcome::Deactivated(res) => {
            match &res {
                Ok(()) => {
                    ui.push(UIMessage::StatusMessage("Template updated at the broker".to_string()));
                    ui.push(templates_update(client));
                },
                Err(e) => ui.push(UIMessage::ErrorMessage(e.message().clone())),
            }
            (IBReply::Done(res), ui)
        },
        BrokerOutcome::HistoricalData(res) => {
            match &res {
                Ok(_) => ui.push(UIMessage::StatusMessage("Retrieved historical bars".to_string())),
                Err(e) => ui.push(UIMessage::ErrorMessage(e.message().clone())),
            }
            (IBReply::Historical(res), ui)
        },
        BrokerOutcome::FilteredAtr(res) => {
            match &res {
                Ok(_) => ui.push(UIMessage::StatusMessage("Filtered ATR calculated".to_string())),
                Err(e) => ui.push(UIMessage::ErrorMessage(e.message().clone())),
            }
            (IBReply::Atr(res), ui)
        },
        BrokerOutcome::MarketDataSubscribed(res) => {
            if res.is_ok() {
                ui.push(UIMessage::StatusMessage("Subscribed to market data".to_string()));
            }
            (IBReply::Done(res), ui)
        },
        BrokerOutcome::MarketDataUnsubscribed => (IBReply::Done(Ok(())), ui),
        BrokerOutcome::AccountSummaryRequested => {
            (IBReply::Done(Err(AppError::Custom("Account summary is not available".to_string()))), ui)
        },
        BrokerOutcome::PositionsRequested => {
            (IBReply::Done(Err(AppError::Custom("Positions are not available".to_string()))), ui)
        },
    }
}

} // verus!
