//! The worker: the single owner of a device connection, written as a state
//! machine. A driver performs what the machine asks for (open the port,
//! shake hands, wait for a command, query a property, trigger an action)
//! and hands back what happened; the machine decides what is sent to the
//! consumer and what is done next. One operation is asked for at a time.

use crate::actions::{clone_actions, ActionInfo, ActionInfoView, DeviceInfo, DeviceInfoView};
use crate::messages::{CommandView, ResponseView, WorkerCommand, WorkerResponse};
use crate::types::{
    clone_text, text_view, views, PropertyData, PropertyDataView, PropertyKind, PropertyValue,
    PropertyValueView,
};
use vstd::prelude::*;
use vstd::string::StringExecFns;

verus! {

/// Longest time for the handshake with the device, in milliseconds.
pub const HANDSHAKE_TIMEOUT_MS: u64 = 5000;

/// Longest wait for the next command, in milliseconds.
pub const COMMAND_WAIT_MS: u64 = 50;

/// Longest time for the query of one property, in milliseconds.
pub const QUERY_TIMEOUT_MS: u64 = 1000;

/// Longest time for one action, in milliseconds.
pub const TRIGGER_TIMEOUT_MS: u64 = 2000;

/// A property that a device offers.
#[derive(Debug)]
pub struct PropertyInfo {
    pub kind: PropertyKind,
    pub name: String,
    pub unit: Option<String>,
}

/// Model of a [`PropertyInfo`].
pub struct PropertyInfoView {
    pub kind: PropertyKind,
    pub name: Seq<char>,
    pub unit: Option<Seq<char>>,
}

impl View for PropertyInfo {
    type V = PropertyInfoView;

    open spec fn view(&self) -> PropertyInfoView {
        PropertyInfoView { kind: self.kind, name: self.name@, unit: text_view(self.unit) }
    }
}

/// How the handshake with the device went.
#[derive(Debug)]
pub enum HandshakeOutcome {
    /// The device answered: what it is, and the properties it offers.
    Connected(DeviceInfo, Vec<PropertyInfo>),
    /// The device or the transport reported an error.
    Failed(String),
    /// No answer in time.
    TimedOut,
}

/// Model of a [`HandshakeOutcome`].
pub enum HandshakeOutcomeView {
    Connected(DeviceInfoView, Seq<PropertyInfoView>),
    Failed(Seq<char>),
    TimedOut,
}

impl View for HandshakeOutcome {
    type V = HandshakeOutcomeView;

    open spec fn view(&self) -> HandshakeOutcomeView {
        match *self {
            HandshakeOutcome::Connected(info, properties) => HandshakeOutcomeView::Connected(
                info@,
                views(properties@),
            ),
            HandshakeOutcome::Failed(reason) => HandshakeOutcomeView::Failed(reason@),
            HandshakeOutcome::TimedOut => HandshakeOutcomeView::TimedOut,
        }
    }
}

/// How the query of one property went.
#[derive(Debug)]
pub enum QueryOutcome {
    Value(PropertyValue),
    Failed,
    TimedOut,
}

/// Model of a [`QueryOutcome`].
pub enum QueryOutcomeView {
    Value(PropertyValueView),
    Failed,
    TimedOut,
}

impl View for QueryOutcome {
    type V = QueryOutcomeView;

    open spec fn view(&self) -> QueryOutcomeView {
        match *self {
            QueryOutcome::Value(value) => QueryOutcomeView::Value(value@),
            QueryOutcome::Failed => QueryOutcomeView::Failed,
            QueryOutcome::TimedOut => QueryOutcomeView::TimedOut,
        }
    }
}

/// How an action went.
#[derive(Debug)]
pub enum TriggerOutcome {
    Done,
    /// The device refused; the text says why.
    Failed(String),
    TimedOut,
}

/// Model of a [`TriggerOutcome`].
pub enum TriggerOutcomeView {
    Done,
    Failed(Seq<char>),
    TimedOut,
}

impl View for TriggerOutcome {
    type V = TriggerOutcomeView;

    open spec fn view(&self) -> TriggerOutcomeView {
        match *self {
            TriggerOutcome::Done => TriggerOutcomeView::Done,
            TriggerOutcome::Failed(reason) => TriggerOutcomeView::Failed(reason@),
            TriggerOutcome::TimedOut => TriggerOutcomeView::TimedOut,
        }
    }
}

/// What the driver reports to the machine.
#[derive(Debug)]
pub enum WorkerEvent {
    /// The execution context for the device operations could not be set up.
    RuntimeFailed(String),
    /// The transport is open.
    PortOpened,
    /// The transport could not be opened.
    PortFailed(String),
    /// The handshake has ended.
    Handshake(HandshakeOutcome),
    /// A command has arrived.
    Command(WorkerCommand),
    /// No command arrived within the wait.
    Idle,
    /// The consumer has gone: no command will arrive any more.
    ChannelClosed,
    /// The query that was asked for has ended.
    QueryDone(QueryOutcome),
    /// The action that was asked for has ended.
    TriggerDone(TriggerOutcome),
}

/// Model of a [`WorkerEvent`].
pub enum EventView {
    RuntimeFailed(Seq<char>),
    PortOpened,
    PortFailed(Seq<char>),
    Handshake(HandshakeOutcomeView),
    Command(CommandView),
    Idle,
    ChannelClosed,
    QueryDone(QueryOutcomeView),
    TriggerDone(TriggerOutcomeView),
}

impl View for WorkerEvent {
    type V = EventView;

    open spec fn view(&self) -> EventView {
        match *self {
            WorkerEvent::RuntimeFailed(reason) => EventView::RuntimeFailed(reason@),
            WorkerEvent::PortOpened => EventView::PortOpened,
            WorkerEvent::PortFailed(reason) => EventView::PortFailed(reason@),
            WorkerEvent::Handshake(outcome) => EventView::Handshake(outcome@),
            WorkerEvent::Command(command) => EventView::Command(command@),
            WorkerEvent::Idle => EventView::Idle,
            WorkerEvent::ChannelClosed => EventView::ChannelClosed,
            WorkerEvent::QueryDone(outcome) => EventView::QueryDone(outcome@),
            WorkerEvent::TriggerDone(outcome) => EventView::TriggerDone(outcome@),
        }
    }
}

/// What the machine asks the driver to do next. An index points into the
/// properties or the actions that the handshake reported.
#[derive(Debug)]
pub enum WorkerAction {
    OpenPort,
    Handshake { timeout_ms: u64 },
    AwaitCommand { timeout_ms: u64 },
    Query { index: usize, timeout_ms: u64 },
    Trigger { index: usize, param: Option<String>, timeout_ms: u64 },
    Stop,
}

/// Model of a [`WorkerAction`].
pub enum ActionView {
    OpenPort,
    Handshake { timeout_ms: u64 },
    AwaitCommand { timeout_ms: u64 },
    Query { index: int, timeout_ms: u64 },
    Trigger { index: int, param: Option<Seq<char>>, timeout_ms: u64 },
    Stop,
}

impl View for WorkerAction {
    type V = ActionView;

    open spec fn view(&self) -> ActionView {
        match *self {
            WorkerAction::OpenPort => ActionView::OpenPort,
            WorkerAction::Handshake { timeout_ms } => ActionView::Handshake { timeout_ms },
            WorkerAction::AwaitCommand { timeout_ms } => ActionView::AwaitCommand { timeout_ms },
            WorkerAction::Query { index, timeout_ms } => ActionView::Query {
                index: index as int,
                timeout_ms,
            },
            WorkerAction::Trigger { index, param, timeout_ms } => ActionView::Trigger {
                index: index as int,
                param: text_view(param),
                timeout_ms,
            },
            WorkerAction::Stop => ActionView::Stop,
        }
    }
}

impl ActionView {
    /// Whether the action is an operation on the device.
    pub open spec fn is_device_operation(self) -> bool {
        self is Handshake || self is Query || self is Trigger
    }
}

/// The outcome of one step: what is sent to the consumer, if anything, and
/// what the driver does next.
#[derive(Debug)]
pub struct WorkerStep {
    pub emit: Option<WorkerResponse>,
    pub next: WorkerAction,
}

/// Model of a [`WorkerStep`].
pub struct StepView {
    pub emit: Option<ResponseView>,
    pub next: ActionView,
}

impl View for WorkerStep {
    type V = StepView;

    open spec fn view(&self) -> StepView {
        StepView {
            emit: match self.emit {
                Some(response) => Some(response@),
                None => None,
            },
            next: self.next@,
        }
    }
}

/// Where the machine stands.
pub enum PhaseView {
    /// The transport is being opened.
    Opening,
    /// The handshake is under way.
    Handshaking,
    /// Connected, and no command is being worked on.
    Idle,
    /// The properties of `kind` are being read: the one at `index` is
    /// under way, `collected` holds what the earlier ones gave.
    Querying { kind: PropertyKind, index: int, collected: Seq<PropertyDataView> },
    /// The action at `index` is under way.
    Triggering { index: int },
    /// The worker has ended.
    Stopped,
}

/// Model of a [`Worker`].
pub struct WorkerView {
    pub phase: PhaseView,
    pub properties: Seq<PropertyInfoView>,
    pub actions: Seq<ActionInfoView>,
}

/// The first index at or after `from` of a property of `kind`.
pub open spec fn next_matching(
    properties: Seq<PropertyInfoView>,
    kind: PropertyKind,
    from: int,
) -> Option<int>
    decreases properties.len() - from,
{
    if from < 0 || from >= properties.len() {
        None
    } else if properties[from].kind == kind {
        Some(from)
    } else {
        next_matching(properties, kind, from + 1)
    }
}

/// The index of the first action at or after `from` whose id is `id`.
pub open spec fn find_action_from(actions: Seq<ActionInfoView>, id: Seq<char>, from: int) -> Option<
    int,
>
    decreases actions.len() - from,
{
    if from < 0 || from >= actions.len() {
        None
    } else if actions[from].id == id {
        Some(from)
    } else {
        find_action_from(actions, id, from + 1)
    }
}

/// The index of the first action whose id is `id`.
pub open spec fn find_action(actions: Seq<ActionInfoView>, id: Seq<char>) -> Option<int> {
    find_action_from(actions, id, 0)
}

/// What a property and the value read for it are shown as.
pub open spec fn reading(property: PropertyInfoView, value: PropertyValueView) -> PropertyDataView {
    PropertyDataView { name: property.name, value, unit: property.unit }
}

/// The response that tells how the action called `name` went.
pub open spec fn action_result(name: Seq<char>, outcome: TriggerOutcomeView) -> ResponseView {
    match outcome {
        TriggerOutcomeView::Done => ResponseView::ActionResult(name, true, "Success"@),
        TriggerOutcomeView::Failed(reason) => ResponseView::ActionResult(name, false, reason),
        TriggerOutcomeView::TimedOut => ResponseView::ActionResult(name, false, "Timeout"@),
    }
}

impl WorkerView {
    /// The state of a worker that has just been made.
    pub open spec fn initial() -> WorkerView {
        WorkerView { phase: PhaseView::Opening, properties: Seq::empty(), actions: Seq::empty() }
    }

    /// An index in the phase points at an item that is there, and the
    /// property under way is one of the group that is being read.
    pub open spec fn wf(self) -> bool {
        match self.phase {
            PhaseView::Querying { kind, index, collected } => 0 <= index < self.properties.len()
                && self.properties[index].kind == kind,
            PhaseView::Triggering { index } => 0 <= index < self.actions.len(),
            _ => true,
        }
    }

    /// The same worker in another phase.
    pub open spec fn in_phase(self, phase: PhaseView) -> WorkerView {
        WorkerView { phase, ..self }
    }

    /// The end of the worker, with `reason` as its last word.
    pub open spec fn fail(self, reason: Seq<char>) -> (WorkerView, StepView) {
        (
            self.in_phase(PhaseView::Stopped),
            StepView { emit: Some(ResponseView::Error(reason)), next: ActionView::Stop },
        )
    }

    /// Back to waiting for a command, after sending `emit`.
    pub open spec fn rest(self, emit: Option<ResponseView>) -> (WorkerView, StepView) {
        (
            self.in_phase(PhaseView::Idle),
            StepView { emit, next: ActionView::AwaitCommand { timeout_ms: COMMAND_WAIT_MS } },
        )
    }

    /// Goes on reading the group `kind` at the first property of it at or
    /// after `from`; when none is left, the batch is sent.
    pub open spec fn read_on(
        self,
        kind: PropertyKind,
        from: int,
        collected: Seq<PropertyDataView>,
    ) -> (WorkerView, StepView) {
        match next_matching(self.properties, kind, from) {
            Some(index) => (
                self.in_phase(PhaseView::Querying { kind, index, collected }),
                StepView {
                    emit: None,
                    next: ActionView::Query { index, timeout_ms: QUERY_TIMEOUT_MS },
                },
            ),
            None => self.rest(Some(ResponseView::Properties(kind, collected))),
        }
    }

    /// What a command does to a worker that waits for one.
    pub open spec fn on_command(self, command: CommandView) -> (WorkerView, StepView) {
        match command {
            CommandView::QueryProperties(kind) => self.read_on(kind, 0, Seq::empty()),
            CommandView::TriggerAction(id, param) => match find_action(self.actions, id) {
                Some(index) => (
                    self.in_phase(PhaseView::Triggering { index }),
                    StepView {
                        emit: None,
                        next: ActionView::Trigger { index, param, timeout_ms: TRIGGER_TIMEOUT_MS },
                    },
                ),
                None => self.rest(None),
            },
            CommandView::Disconnect => (
                self.in_phase(PhaseView::Stopped),
                StepView { emit: Some(ResponseView::Disconnected), next: ActionView::Stop },
            ),
        }
    }

    /// The step that `event` causes: the next state, what is sent and what
    /// is done next. `None` where the event cannot occur in this phase.
    pub open spec fn step(self, event: EventView) -> Option<(WorkerView, StepView)> {
        match self.phase {
            PhaseView::Opening => match event {
                EventView::RuntimeFailed(reason) => Some(
                    self.fail("Failed to create runtime: "@ + reason),
                ),
                EventView::PortFailed(reason) => Some(self.fail("Failed to open port: "@ + reason)),
                EventView::PortOpened => Some(
                    (
                        self.in_phase(PhaseView::Handshaking),
                        StepView {
                            emit: None,
                            next: ActionView::Handshake { timeout_ms: HANDSHAKE_TIMEOUT_MS },
                        },
                    ),
                ),
                _ => None,
            },
            PhaseView::Handshaking => match event {
                EventView::Handshake(HandshakeOutcomeView::Connected(info, properties)) => Some(
                    WorkerView {
                        phase: PhaseView::Idle,
                        properties,
                        actions: info.actions,
                    }.rest(Some(ResponseView::Connected(info))),
                ),
                EventView::Handshake(HandshakeOutcomeView::Failed(reason)) => Some(
                    self.fail("Failed to connect: "@ + reason),
                ),
                EventView::Handshake(HandshakeOutcomeView::TimedOut) => Some(
                    self.fail("Connection timeout"@),
                ),
                _ => None,
            },
            PhaseView::Idle => match event {
                EventView::Idle => Some(self.rest(None)),
                EventView::ChannelClosed => Some(
                    (
                        self.in_phase(PhaseView::Stopped),
                        StepView { emit: None, next: ActionView::Stop },
                    ),
                ),
                EventView::Command(command) => Some(self.on_command(command)),
                _ => None,
            },
            PhaseView::Querying { kind, index, collected } => match event {
                EventView::QueryDone(QueryOutcomeView::Value(value)) => Some(
                    self.read_on(
                        kind,
                        index + 1,
                        collected.push(reading(self.properties[index], value)),
                    ),
                ),
                EventView::QueryDone(_) => Some(self.read_on(kind, index + 1, collected)),
                _ => None,
            },
            PhaseView::Triggering { index } => match event {
                EventView::TriggerDone(outcome) => Some(
                    self.rest(Some(action_result(self.actions[index].name, outcome))),
                ),
                _ => None,
            },
            PhaseView::Stopped => None,
        }
    }
}


/// Where the machine stands; the batch that a query has collected so far
/// lies beside it, in the worker.
#[derive(Clone, Copy)]
enum Phase {
    Opening,
    Handshaking,
    Idle,
    Querying { kind: PropertyKind, index: usize },
    Triggering { index: usize },
    Stopped,
}

/// The worker's state machine. Its driver owns the device and the two
/// message queues; the machine owns the decisions.
pub struct Worker {
    phase: Phase,
    properties: Vec<PropertyInfo>,
    actions: Vec<ActionInfo>,
    collected: Vec<PropertyData>,
}

impl View for Worker {
    type V = WorkerView;

    closed spec fn view(&self) -> WorkerView {
        WorkerView {
            phase: match self.phase {
                Phase::Opening => PhaseView::Opening,
                Phase::Handshaking => PhaseView::Handshaking,
                Phase::Idle => PhaseView::Idle,
                Phase::Querying { kind, index } => PhaseView::Querying {
                    kind,
                    index: index as int,
                    collected: views(self.collected@),
                },
                Phase::Triggering { index } => PhaseView::Triggering { index: index as int },
                Phase::Stopped => PhaseView::Stopped,
            },
            properties: views(self.properties@),
            actions: views(self.actions@),
        }
    }
}

/// `prefix` followed by `rest`.
fn prefixed(prefix: &str, rest: &String) -> (res: String)
    ensures
        res@ == prefix@ + rest@,
{
    String::from_str(prefix).concat(rest.as_str())
}

impl Worker {
    #[verifier::type_invariant]
    spec fn inv(self) -> bool {
        self@.wf()
    }

    /// A new worker, and the first thing its driver does: open the
    /// transport.
    pub fn start() -> (res: (Worker, WorkerAction))
        ensures
            res.0@ == WorkerView::initial(),
            res.1@ == ActionView::OpenPort,
    {
        let worker = Worker {
            phase: Phase::Opening,
            properties: Vec::new(),
            actions: Vec::new(),
            collected: Vec::new(),
        };
        assert(worker@.properties =~= Seq::empty());
        assert(worker@.actions =~= Seq::empty());
        (worker, WorkerAction::OpenPort)
    }

    /// Whether the worker has ended.
    pub fn is_stopped(&self) -> (res: bool)
        ensures
            res == (self@.phase is Stopped),
    {
        match self.phase {
            Phase::Stopped => true,
            _ => false,
        }
    }

    /// The number of properties that the device offers.
    pub fn property_count(&self) -> (res: usize)
        ensures
            res == self@.properties.len(),
    {
        self.properties.len()
    }

    /// The number of actions that the device offers.
    pub fn action_count(&self) -> (res: usize)
        ensures
            res == self@.actions.len(),
    {
        self.actions.len()
    }

    fn fail(self, reason: String) -> (res: (Worker, WorkerStep))
        ensures
            (res.0@, res.1@) == self@.fail(reason@),
    {
        (
            Worker { phase: Phase::Stopped, ..self },
            WorkerStep { emit: Some(WorkerResponse::Error(reason)), next: WorkerAction::Stop },
        )
    }

    fn rest(self, emit: Option<WorkerResponse>) -> (res: (Worker, WorkerStep))
        ensures
            (res.0@, res.1@) == self@.rest(
                match emit {
                    Some(response) => Some(response@),
                    None => None,
                },
            ),
    {
        (
            Worker { phase: Phase::Idle, ..self },
            WorkerStep { emit, next: WorkerAction::AwaitCommand { timeout_ms: COMMAND_WAIT_MS } },
        )
    }

    fn next_of_kind(&self, kind: PropertyKind, from: usize) -> (res: Option<usize>)
        ensures
            match res {
                Some(index) => index < self.properties.len() && self.properties[index as int].kind
                    == kind && next_matching(self@.properties, kind, from as int) == Some(
                    index as int,
                ),
                None => next_matching(self@.properties, kind, from as int) is None,
            },
    {
        let mut i: usize = from;
        while i < self.properties.len()
            invariant
                from <= i,
                next_matching(self@.properties, kind, from as int) == next_matching(
                    self@.properties,
                    kind,
                    i as int,
                ),
            decreases self.properties.len() - i,
        {
            if self.properties[i].kind == kind {
                return Some(i);
            }
            i += 1;
        }
        None
    }

    fn find_action(&self, id: &String) -> (res: Option<usize>)
        ensures
            match res {
                Some(index) => index < self.actions.len() && find_action(self@.actions, id@)
                    == Some(index as int),
                None => find_action(self@.actions, id@) is None,
            },
    {
        let mut i: usize = 0;
        while i < self.actions.len()
            invariant
                find_action(self@.actions, id@) == find_action_from(self@.actions, id@, i as int),
            decreases self.actions.len() - i,
        {
            if self.actions[i].id == *id {
                return Some(i);
            }
            i += 1;
        }
        None
    }

    fn read_on(self, kind: PropertyKind, from: usize) -> (res: (Worker, WorkerStep))
        ensures
            (res.0@, res.1@) == self@.read_on(kind, from as int, views(self.collected@)),
    {
        match self.next_of_kind(kind, from) {
            Some(index) => (
                Worker { phase: Phase::Querying { kind, index }, ..self },
                WorkerStep {
                    emit: None,
                    next: WorkerAction::Query { index, timeout_ms: QUERY_TIMEOUT_MS },
                },
            ),
            None => {
                let Worker { phase: _, properties, actions, collected } = self;
                (
                    Worker { phase: Phase::Idle, properties, actions, collected: Vec::new() },
                    WorkerStep {
                        emit: Some(WorkerResponse::Properties(kind, collected)),
                        next: WorkerAction::AwaitCommand { timeout_ms: COMMAND_WAIT_MS },
                    },
                )
            },
        }
    }

    fn on_command(self, command: WorkerCommand) -> (res: (Worker, WorkerStep))
        ensures
            (res.0@, res.1@) == self@.on_command(command@),
    {
        match command {
            WorkerCommand::QueryProperties(kind) => {
                let fresh = Worker { phase: Phase::Idle, collected: Vec::new(), ..self };
                assert(views(fresh.collected@) =~= Seq::empty());
                fresh.read_on(kind, 0)
            },
            WorkerCommand::TriggerAction(id, param) => match self.find_action(&id) {
                Some(index) => (
                    Worker { phase: Phase::Triggering { index }, ..self },
                    WorkerStep {
                        emit: None,
                        next: WorkerAction::Trigger {
                            index,
                            param,
                            timeout_ms: TRIGGER_TIMEOUT_MS,
                        },
                    },
                ),
                None => self.rest(None),
            },
            WorkerCommand::Disconnect => (
                Worker { phase: Phase::Stopped, ..self },
                WorkerStep { emit: Some(WorkerResponse::Disconnected), next: WorkerAction::Stop },
            ),
        }
    }

    fn on_query_done(self, kind: PropertyKind, index: usize, outcome: QueryOutcome) -> (res: (
        Worker,
        WorkerStep,
    ))
        requires
            self.phase == (Phase::Querying { kind, index }),
        ensures
            self@.step(EventView::QueryDone(outcome@)) == Some((res.0@, res.1@)),
    {
        proof {
            use_type_invariant(&self);
        }
        assert(index < self.properties.len());
        match outcome {
            QueryOutcome::Value(value) => {
                let property = &self.properties[index];
                let data = PropertyData {
                    name: property.name.clone(),
                    value,
                    unit: clone_text(&property.unit),
                };
                let Worker { phase, properties, actions, mut collected } = self;
                collected.push(data);
                assert(views(collected@) =~= views(self.collected@).push(
                    reading(self@.properties[index as int], value@),
                ));
                let worker = Worker { phase, properties, actions, collected };
                worker.read_on(kind, index + 1)
            },
            _ => self.read_on(kind, index + 1),
        }
    }

    fn on_trigger_done(self, index: usize, outcome: TriggerOutcome) -> (res: (Worker, WorkerStep))
        requires
            self.phase == (Phase::Triggering { index }),
        ensures
            self@.step(EventView::TriggerDone(outcome@)) == Some((res.0@, res.1@)),
    {
        proof {
            use_type_invariant(&self);
        }
        let name = self.actions[index].name.clone();
        let response = match outcome {
            TriggerOutcome::Done => WorkerResponse::ActionResult(
                name,
                true,
                String::from_str("Success"),
            ),
            TriggerOutcome::Failed(reason) => WorkerResponse::ActionResult(name, false, reason),
            TriggerOutcome::TimedOut => WorkerResponse::ActionResult(
                name,
                false,
                String::from_str("Timeout"),
            ),
        };
        self.rest(Some(response))
    }

    /// Takes what the driver reports and gives the worker after it, with
    /// what is sent to the consumer and what is done next. An event that
    /// cannot occur in the present phase is refused: the step is `None`
    /// and the worker is handed back unchanged.
    pub fn step(self, event: WorkerEvent) -> (res: (Worker, Option<WorkerStep>))
        ensures
            match self@.step(event@) {
                Some((state, step)) => res.1 is Some && res.1.unwrap()@ == step && res.0@ == state,
                None => res.1 is None && res.0@ == self@,
            },
            self@.wf(),
            res.0@.wf(),
    {
        proof {
            use_type_invariant(&self);
        }
        let stepped = match self.phase {
            Phase::Opening => match event {
                WorkerEvent::RuntimeFailed(reason) => Ok(
                    self.fail(prefixed("Failed to create runtime: ", &reason)),
                ),
                WorkerEvent::PortFailed(reason) => Ok(
                    self.fail(prefixed("Failed to open port: ", &reason)),
                ),
                WorkerEvent::PortOpened => Ok(
                    (
                        Worker { phase: Phase::Handshaking, ..self },
                        WorkerStep {
                            emit: None,
                            next: WorkerAction::Handshake { timeout_ms: HANDSHAKE_TIMEOUT_MS },
                        },
                    ),
                ),
                _ => Err(self),
            },
            Phase::Handshaking => match event {
                WorkerEvent::Handshake(HandshakeOutcome::Connected(info, properties)) => {
                    let connected = Worker {
                        phase: Phase::Idle,
                        properties,
                        actions: clone_actions(&info.actions),
                        collected: Vec::new(),
                    };
                    Ok(connected.rest(Some(WorkerResponse::Connected(info))))
                },
                WorkerEvent::Handshake(HandshakeOutcome::Failed(reason)) => Ok(
                    self.fail(prefixed("Failed to connect: ", &reason)),
                ),
                WorkerEvent::Handshake(HandshakeOutcome::TimedOut) => Ok(
                    self.fail(String::from_str("Connection timeout")),
                ),
                _ => Err(self),
            },
            Phase::Idle => match event {
                WorkerEvent::Idle => Ok(self.rest(None)),
                WorkerEvent::ChannelClosed => Ok(
                    (
                        Worker { phase: Phase::Stopped, ..self },
                        WorkerStep { emit: None, next: WorkerAction::Stop },
                    ),
                ),
                WorkerEvent::Command(command) => Ok(self.on_command(command)),
                _ => Err(self),
            },
            Phase::Querying { kind, index } => match event {
                WorkerEvent::QueryDone(outcome) => Ok(self.on_query_done(kind, index, outcome)),
                _ => Err(self),
            },
            Phase::Triggering { index } => match event {
                WorkerEvent::TriggerDone(outcome) => Ok(self.on_trigger_done(index, outcome)),
                _ => Err(self),
            },
            Phase::Stopped => Err(self),
        };
        match stepped {
            Ok((worker, step)) => {
                proof {
                    use_type_invariant(&worker);
                }
                (worker, Some(step))
            },
            Err(worker) => (worker, None),
        }
    }
}

} // verus!
