use vstd::prelude::*;
use crate::chart::{chart_handled, ChartAction, ChartMessage, ChartState};
use crate::client::{AccountType, ConnectionStatus, IBClient};
use crate::ib_handler::{handle_ib_message, ib_handled, IBMessage, IBReply};
use crate::template::OrderTemplate;

verus! {

/// The runtime's state, owned by the single worker that folds messages
/// into it. Times are seconds since the Unix epoch.
pub struct State {
    /// Bumped by every message that changes the state.
    pub version: u64,
    /// Demonstration counter.
    pub counter: i32,
    pub start_time: i64,
    pub is_running: bool,
}

impl State {
    /// The state that `new` makes.
    pub open spec fn new_spec(now: i64) -> State {
        State { version: 0, counter: 0, start_time: now, is_running: false }
    }

    /// Version 0, counter 0, stopped, started at `now`.
    pub fn new(now: i64) -> (r: State)
        ensures
            r == State::new_spec(now),
    {
        State { version: 0, counter: 0, start_time: now, is_running: false }
    }

    /// A field-by-field copy.
    pub fn snapshot(&self) -> (r: State)
        ensures
            r == *self,
    {
        State {
            version: self.version,
            counter: self.counter,
            start_time: self.start_time,
            is_running: self.is_running,
        }
    }
}

/// Messages the runtime accepts.
pub enum RuntimeInMessage {
    Start,
    Stop,
    /// Ask for a copy of the state.
    State,
    /// Replace the state.
    NewState(State),
    IncrementCounter,
    DecrementCounter,
    ResetCounter,
    /// Report an error to the user interface.
    Error(String),
    /// A broker request.
    IB(IBMessage),
    /// A chart request.
    Chart(ChartMessage),
}

/// Replies of the runtime.
pub enum RuntimeOutMessage {
    /// The runtime started at the given time.
    Started(i64),
    /// A copy of the state, with the time of the request.
    State(State, i64),
    Error(String),
    OkMsg(String),
    /// The message was handled.
    Ack,
    /// The message is not for the runtime's own state.
    Unhandled,
    /// The answer to a broker request.
    IB(IBReply),
    /// What a chart request asks for.
    Chart(ChartAction),
}

/// Notifications for the user interface.
pub enum UIMessage {
    UpdateCounter(i32),
    StatusMessage(String),
    ErrorMessage(String),
    RuntimeStarted,
    RuntimeStopped,
    IBConnectionStatus { paper_connected: bool, live_connected: bool, active_account: Option<AccountType> },
    IBOrderTemplateUpdate { templates: Vec<OrderTemplate> },
    /// Row-major RGB image, three bytes per pixel.
    ChartImageUpdate { image_data: Vec<u8>, width: u32, height: u32, symbol: String },
}

impl UIMessage {
    /// The notification of a connection state.
    pub fn connection_status(status: ConnectionStatus) -> (r: UIMessage)
        ensures
            r == (UIMessage::IBConnectionStatus {
                paper_connected: status.paper_connected,
                live_connected: status.live_connected,
                active_account: status.active_account,
            }),
    {
        UIMessage::IBConnectionStatus {
            paper_connected: status.paper_connected,
            live_connected: status.live_connected,
            active_account: status.active_account,
        }
    }
}

/// The message changes the state and bumps its version.
pub open spec fn bumps_version(msg: RuntimeInMessage) -> bool {
    match msg {
        RuntimeInMessage::Start => true,
        RuntimeInMessage::Stop => true,
        RuntimeInMessage::IncrementCounter => true,
        RuntimeInMessage::DecrementCounter => true,
        RuntimeInMessage::ResetCounter => true,
        _ => false,
    }
}

/// One more, wrapping at the top of the range.
pub open spec fn counter_up(c: i32) -> i32 {
    if c == i32::MAX { i32::MIN } else { (c + 1) as i32 }
}

/// One less, wrapping at the bottom of the range.
pub open spec fn counter_down(c: i32) -> i32 {
    if c == i32::MIN { i32::MAX } else { (c - 1) as i32 }
}

/// The version one higher, staying at the top of the range: it never
/// decreases.
pub open spec fn version_up(v: u64) -> u64 {
    if v == u64::MAX { v } else { (v + 1) as u64 }
}

/// The state after folding one message in at time `now`.
pub open spec fn next_state(s: State, msg: RuntimeInMessage, now: i64) -> State {
    match msg {
        RuntimeInMessage::Start => State { version: version_up(s.version), start_time: now, is_running: true, ..s },
        RuntimeInMessage::Stop => State { version: version_up(s.version), is_running: false, ..s },
        RuntimeInMessage::NewState(n) => n,
        RuntimeInMessage::IncrementCounter => State { version: version_up(s.version), counter: counter_up(s.counter), ..s },
        RuntimeInMessage::DecrementCounter => State { version: version_up(s.version), counter: counter_down(s.counter), ..s },
        RuntimeInMessage::ResetCounter => State { version: version_up(s.version), counter: 0, ..s },
        _ => s,
    }
}

/// The state after folding the messages in, in order, all at time `now`.
pub open spec fn run(s: State, msgs: Seq<RuntimeInMessage>, now: i64) -> State
    decreases msgs.len(),
{
    if msgs.len() == 0 {
        s
    } else {
        next_state(run(s, msgs.drop_last(), now), msgs.last(), now)
    }
}

/// Number of messages that bump the version.
pub open spec fn count_bumps(msgs: Seq<RuntimeInMessage>) -> nat
    decreases msgs.len(),
{
    if msgs.len() == 0 {
        0
    } else {
        count_bumps(msgs.drop_last()) + (if bumps_version(msgs.last()) { 1nat } else { 0nat })
    }
}

/// No message replaces the whole state.
pub open spec fn no_replacement(msgs: Seq<RuntimeInMessage>) -> bool {
    forall|i: int| 0 <= i < msgs.len() ==> !(#[trigger] msgs[i] is NewState)
}

/// The reply and notifications of the runtime for `msg`, given the state
/// before and after it.
pub open spec fn runtime_replied(state: State, msg: RuntimeInMessage, now: i64, next: State, reply: RuntimeOutMessage, ui: Seq<UIMessage>) -> bool {
    &&& next == next_state(state, msg, now)
    &&& (!(msg is NewState) ==> next.version >= state.version)
    &&& (msg is Start ==> reply == RuntimeOutMessage::Started(now) && ui.len() == 2
        && ui[0] is RuntimeStarted && ui[1] is StatusMessage)
    &&& (msg is Stop ==> reply is Ack && ui.len() == 2 && ui[0] is RuntimeStopped && ui[1] is StatusMessage)
    &&& (msg is State ==> reply == RuntimeOutMessage::State(state, now) && ui.len() == 0)
    &&& (msg is NewState ==> reply is Ack && ui.len() == 0)
    &&& (msg is IncrementCounter || msg is DecrementCounter ==> reply is Ack
        && ui == seq![UIMessage::UpdateCounter(next.counter)])
    &&& (msg is ResetCounter ==> reply is Ack && ui.len() == 2
        && ui[0] == UIMessage::UpdateCounter(0) && ui[1] is StatusMessage)
    &&& (msg matches RuntimeInMessage::Error(e) ==> reply == RuntimeOutMessage::Error(e)
        && ui == seq![UIMessage::ErrorMessage(e)])
    &&& (msg is IB || msg is Chart ==> reply is Unhandled && ui.len() == 0)
}

/// Folds one message into the state at time `now`: Start and Stop set the
/// running flag, the counter messages change the counter, and each of
/// these bumps the version; `NewState` replaces the state; `State` and
/// `Error` leave it as it is; broker and chart requests are not for the
/// state and are left unhandled here. Returns the new state, the reply,
/// and the notifications for the user interface in the order they are sent.
pub fn handle_runtime_message(state: State, msg: RuntimeInMessage, now: i64)
    -> (r: (State, RuntimeOutMessage, Vec<UIMessage>))
    ensures
        runtime_replied(state, msg, now, r.0, r.1, r.2@),
{
    let mut ui: Vec<UIMessage> = Vec::new();
    let v = if state.version == u64::MAX { u64::MAX } else { state.version + 1 };
    match msg {
        RuntimeInMessage::NewState(n) => (n, RuntimeOutMessage::Ack, ui),
        RuntimeInMessage::Start => {
            ui.push(UIMessage::RuntimeStarted);
            ui.push(UIMessage::StatusMessage("Runtime started successfully".to_string()));
            (State { version: v, start_time: now, is_running: true, ..state }, RuntimeOutMessage::Started(now), ui)
        },
        RuntimeInMessage::Stop => {
            ui.push(UIMessage::RuntimeStopped);
            ui.push(UIMessage::StatusMessage("Runtime stopped".to_string()));
            (State { version: v, is_running: false, ..state }, RuntimeOutMessage::Ack, ui)
        },
        RuntimeInMessage::State => {
            let copy = state.snapshot();
            (state, RuntimeOutMessage::State(copy, now), ui)
        },
        RuntimeInMessage::IncrementCounter => {
            let c = if state.counter == i32::MAX { i32::MIN } else { state.counter + 1 };
            ui.push(UIMessage::UpdateCounter(c));
            (State { version: v, counter: c, ..state }, RuntimeOutMessage::Ack, ui)
        },
        RuntimeInMessage::DecrementCounter => {
            let c = if state.counter == i32::MIN { i32::MAX } else { state.counter - 1 };
            ui.push(UIMessage::UpdateCounter(c));
            (State { version: v, counter: c, ..state }, RuntimeOutMessage::Ack, ui)
        },
        RuntimeInMessage::ResetCounter => {
            ui.push(UIMessage::UpdateCounter(0));
            ui.push(UIMessage::StatusMessage("Counter reset to zero".to_string()));
            (State { version: v, counter: 0, ..state }, RuntimeOutMessage::Ack, ui)
        },
        RuntimeInMessage::Error(e) => {
            let shown = e.clone();
            ui.push(UIMessage::ErrorMessage(shown));
            (state, RuntimeOutMessage::Error(e), ui)
        },
        RuntimeInMessage::IB(_) | RuntimeInMessage::Chart(_) => (state, RuntimeOutMessage::Unhandled, ui),
    }
}

/// Folds the messages into the state one after another, as the worker
/// does, all at time `now`. Returns the final state and one reply per
/// message, in order; the reply to a `State` message carries the state
/// left by the messages before it.
pub fn run_messages(state: State, msgs: Vec<RuntimeInMessage>, now: i64) -> (r: (State, Vec<RuntimeOutMessage>))
    ensures
        r.0 == run(state, msgs@, now),
        r.1@.len() == msgs@.len(),
        forall|k: int| 0 <= k < msgs@.len() && #[trigger] msgs@[k] is State
            ==> r.1@[k] == RuntimeOutMessage::State(run(state, msgs@.subrange(0, k), now), now),
{
    let ghost all = msgs@;
    let mut current = state;
    let mut replies: Vec<RuntimeOutMessage> = Vec::new();
    let mut rest = msgs;
    let mut k: usize = 0;
    let n = rest.len();
    while k < n
        invariant
            n == all.len(),
            k <= n,
            rest@.len() == n - k,
            rest@ == all.subrange(k as int, n as int),
            current == run(state, all.subrange(0, k as int), now),
            replies@.len() == k,
            forall|j: int| 0 <= j < k && #[trigger] all[j] is State
                ==> replies@[j] == RuntimeOutMessage::State(run(state, all.subrange(0, j), now), now),
        decreases n - k,
    {
        let msg = rest.remove(0);
        assert(msg == all[k as int]);
        assert(all.subrange(0, k as int + 1).drop_last() =~= all.subrange(0, k as int));
        let (next, reply, _ui) = handle_runtime_message(current, msg, now);
        current = next;
        replies.push(reply);
        k = k + 1;
        assert(rest@ =~= all.subrange(k as int, n as int));
    }
    assert(all.subrange(0, n as int) =~= all);
    (current, replies)
}

/// Everything the runtime's worker owns: its state, the broker client and
/// the chart.
pub struct System {
    pub state: State,
    pub ib_client: IBClient,
    pub chart: ChartState,
}

impl System {
    /// The broker client and the chart are well formed.
    pub open spec fn wf(&self) -> bool {
        self.ib_client.wf() && self.chart.wf()
    }

    /// A fresh state at time `now`, a client without connections and an
    /// empty chart.
    pub fn new(now: i64) -> (r: System)
        ensures
            r.wf(),
            r.state == State::new_spec(now),
            r.chart.chart_data is None && r.chart.viewport_controller is None,
    {
        System { state: State::new(now), ib_client: IBClient::new(), chart: ChartState::new() }
    }

    /// Handles one message: broker requests go to the broker client, chart
    /// requests to the chart (told whether a connected account is
    /// selected), and the others to the runtime's own state.
    pub fn handle(&mut self, msg: RuntimeInMessage, now: i64) -> (r: (RuntimeOutMessage, Vec<UIMessage>))
        requires
            old(self).wf(),
        ensures
            final(self).wf(),
            msg matches RuntimeInMessage::IB(m) ==> {
                &&& r.0 matches RuntimeOutMessage::IB(reply) && ib_handled(old(self).ib_client, final(self).ib_client, m, reply, r.1@)
                &&& final(self).state == old(self).state
                &&& final(self).chart == old(self).chart
            },
            msg matches RuntimeInMessage::Chart(m) ==> {
                &&& r.0 matches RuntimeOutMessage::Chart(a)
                    && chart_handled(old(self).chart, final(self).chart, m, old(self).ib_client.account_ready(), a)
                &&& r.1@.len() == 0
                &&& final(self).state == old(self).state
                &&& final(self).ib_client == old(self).ib_client
            },
            !(msg is IB) && !(msg is Chart) ==> {
                &&& runtime_replied(old(self).state, msg, now, final(self).state, r.0, r.1@)
                &&& final(self).ib_client == old(self).ib_client
                &&& final(self).chart == old(self).chart
            },
    {
        match msg {
            RuntimeInMessage::IB(m) => {
                let (reply, ui) = handle_ib_message(&mut self.ib_client, m);
                (RuntimeOutMessage::IB(reply), ui)
            },
            RuntimeInMessage::Chart(m) => {
                let connected = self.ib_client.get_active_account().is_ok();
                let action = self.chart.handle_chart_message(m, connected);
                (RuntimeOutMessage::Chart(action), Vec::new())
            },
            other => {
                let mut current = State::new(now);
                std::mem::swap(&mut current, &mut self.state);
                let (next, reply, ui) = handle_runtime_message(current, other, now);
                self.state = next;
                (reply, ui)
            },
        }
    }
}

/// Serial mutation: folding messages that do not replace the state raises
/// the version by exactly the number of messages that bump it, stopping at
/// the largest version.
pub proof fn lemma_serial_mutation(s: State, msgs: Seq<RuntimeInMessage>, now: i64)
    requires
        no_replacement(msgs),
    ensures
        run(s, msgs, now).version == (if s.version + count_bumps(msgs) <= u64::MAX {
            s.version + count_bumps(msgs)
        } else {
            u64::MAX as int
        }),
    decreases msgs.len(),
{
    if msgs.len() > 0 {
        let prefix = msgs.drop_last();
        assert forall|i: int| 0 <= i < prefix.len() implies !(#[trigger] prefix[i] is NewState) by {
            assert(prefix[i] == msgs[i]);
        }
        lemma_serial_mutation(s, prefix, now);
        assert(!(msgs[msgs.len() - 1] is NewState));
    }
}

} // verus!
