//! The consumer's view-model: the state of the connection, what is known
//! of the device, the status line, and the rules by which responses change
//! them and by which new reads are asked for.

use crate::actions::{DeviceInfo, DeviceInfoView};
use crate::format::{age_text, decimal, decimal_string, format_age, kind_name};
use crate::handle::{deliver_spec, response_view, HandleView, PollView, WorkerHandle};
use crate::messages::{CommandView, ResponseView, WorkerCommand, WorkerResponse};
use crate::scheduler::{elapsed, elapsed_ms, first_due, next_due, THROTTLE_MS};
use crate::storage::{PropertyStorage, SlotView, StorageView};
use crate::types::{text_view, views, PropertyKind};
use vstd::prelude::*;
use vstd::string::StringExecFns;

verus! {

/// A status message is shown for this many milliseconds.
pub const STATUS_LIFETIME_MS: u64 = 10000;

/// The state of the connection, as the consumer knows it.
#[derive(Debug)]
pub enum ConnectionState {
    Disconnected,
    Connecting,
    Connected(DeviceInfo),
    Error(String),
}

/// Model of a [`ConnectionState`].
pub enum ConnectionView {
    Disconnected,
    Connecting,
    Connected(DeviceInfoView),
    Error(Seq<char>),
}

impl View for ConnectionState {
    type V = ConnectionView;

    open spec fn view(&self) -> ConnectionView {
        match *self {
            ConnectionState::Disconnected => ConnectionView::Disconnected,
            ConnectionState::Connecting => ConnectionView::Connecting,
            ConnectionState::Connected(info) => ConnectionView::Connected(info@),
            ConnectionState::Error(message) => ConnectionView::Error(message@),
        }
    }
}

/// The most recent status message: its text, the time in milliseconds at
/// which it was set, and whether it tells of an error.
pub struct StatusView {
    pub text: Seq<char>,
    pub time: u64,
    pub is_error: bool,
}

/// Model of a [`FreeMduApp`].
pub struct AppView {
    pub ports: Seq<Seq<char>>,
    pub selected_port: int,
    pub connection: ConnectionView,
    pub worker: Option<HandleView>,
    pub properties: StorageView,
    pub status: Option<StatusView>,
    pub auto_refresh: bool,
    pub last_refresh: u64,
}

/// The status text for a connection that stands.
pub open spec fn connected_text(info: DeviceInfoView) -> Seq<char> {
    "Connected to "@ + kind_name(info.kind) + " (ID: "@ + decimal(info.software_id as nat) + ")"@
}

/// The status text for the result of an action.
pub open spec fn action_text(name: Seq<char>, success: bool, message: Seq<char>) -> Seq<char> {
    if success {
        "Action '"@ + name + "' executed"@
    } else {
        "Action '"@ + name + "' failed: "@ + message
    }
}

impl AppView {
    /// The same state with a new status message.
    pub open spec fn with_status(self, text: Seq<char>, is_error: bool, now: u64) -> AppView {
        AppView { status: Some(StatusView { text, time: now, is_error }), ..self }
    }

    /// What one response makes of the state. A batch of properties takes
    /// the place of what was known of its group and touches nothing else;
    /// every other response sets the status message.
    pub open spec fn apply(self, response: ResponseView, now: u64) -> AppView {
        match response {
            ResponseView::Connected(info) => AppView {
                connection: ConnectionView::Connected(info),
                ..self
            }.with_status(connected_text(info), false, now),
            ResponseView::Properties(kind, data) => AppView {
                properties: self.properties.with_slot(kind, (data, Some(now))),
                ..self
            },
            ResponseView::ActionResult(name, success, message) => self.with_status(
                action_text(name, success, message),
                !success,
                now,
            ),
            ResponseView::Error(message) => AppView {
                connection: ConnectionView::Error(message),
                ..self
            }.with_status("Error: "@ + message, true, now),
            ResponseView::Disconnected => AppView {
                connection: ConnectionView::Disconnected,
                worker: None,
                ..self
            }.with_status("Device disconnected"@, true, now),
        }
    }

    /// What a run of responses makes of the state, applied in order.
    pub open spec fn apply_all(self, responses: Seq<ResponseView>, now: u64) -> AppView
        decreases responses.len(),
    {
        if responses.len() == 0 {
            self
        } else {
            self.apply_all(responses.drop_last(), now).apply(responses.last(), now)
        }
    }

    /// Whether the scheduler looks at the groups at `now`: auto-refresh is
    /// on, the connection stands, and the last look lies far enough back.
    pub open spec fn looks_at(self, now: u64) -> bool {
        self.auto_refresh && self.connection is Connected && elapsed_ms(now, self.last_refresh)
            >= THROTTLE_MS
    }

    /// Whether there is a handle to a worker.
    pub open spec fn has_worker(self) -> bool {
        self.worker is Some
    }

    /// Whether the handle has told the consumer of the end of the
    /// connection; without a handle nothing has been told.
    pub open spec fn worker_ended(self) -> bool {
        match self.worker {
            Some(handle) => handle.ended,
            None => false,
        }
    }

    /// The commands that the handle has put into its queue, in order;
    /// without a handle there are none.
    pub open spec fn handed(self) -> Seq<CommandView> {
        match self.worker {
            Some(handle) => handle.handed,
            None => Seq::empty(),
        }
    }

    /// The state after a command was given to the handle: the command
    /// stands last among those handed over. Without a handle nothing
    /// changes.
    pub open spec fn handing(self, command: CommandView) -> AppView {
        match self.worker {
            Some(handle) => AppView {
                worker: Some(HandleView { handed: handle.handed.push(command), ..handle }),
                ..self
            },
            None => self,
        }
    }

    /// One tick of the scheduler: the state after it and the group that is
    /// asked for, if any. A tick that looks notes the time, whether or not
    /// a group is due, and hands the query for the group that is due to
    /// the worker.
    pub open spec fn tick(self, now: u64) -> (AppView, Option<PropertyKind>) {
        if self.looks_at(now) {
            let looked = AppView { last_refresh: now, ..self };
            match first_due(self.properties, now) {
                Some(kind) => (looked.handing(CommandView::QueryProperties(kind)), Some(kind)),
                None => (looked, None),
            }
        } else {
            (self, None)
        }
    }

    /// The state after the user has asked for the end of the connection.
    pub open spec fn disconnected(self, now: u64) -> AppView {
        AppView {
            connection: ConnectionView::Disconnected,
            worker: None,
            properties: StorageView::empty(),
            ..self
        }.with_status("Disconnected"@, false, now)
    }

    /// The port that a connect goes to: the selected one, if there is any.
    pub open spec fn port_to_open(self) -> Option<Seq<char>> {
        if self.ports.len() == 0 {
            None
        } else {
            Some(self.ports[self.selected_port])
        }
    }

    /// The state after the user has asked for a connection.
    pub open spec fn connecting(self, now: u64) -> AppView {
        match self.port_to_open() {
            Some(port) => AppView { connection: ConnectionView::Connecting, ..self },
            None => self.with_status("No serial ports available"@, true, now),
        }
    }

    /// The status message, as long as it is shown.
    pub open spec fn visible_status(self, now: u64) -> Option<StatusView> {
        match self.status {
            Some(status) => if elapsed_ms(now, status.time) < STATUS_LIFETIME_MS {
                Some(status)
            } else {
                None
            },
            None => None,
        }
    }
}

/// Wholesale replacement: a batch of properties becomes what is known of
/// its group, at the time it came, and every other group stays as it was;
/// a response of another kind leaves all that is known of the properties
/// as it was.
pub proof fn lemma_only_its_group_changes(app: AppView, response: ResponseView, now: u64)
    ensures
        match response {
            ResponseView::Properties(kind, data) => {
                &&& app.apply(response, now).properties.slot(kind) == (data, Some(now))
                &&& forall|other: PropertyKind|
                    other != kind ==> app.apply(response, now).properties.slot(other)
                        == app.properties.slot(other)
            },
            _ => app.apply(response, now).properties == app.properties,
        },
{
}

/// What the consumer does, one thing after the other.
pub enum ConsumerEvent {
    /// The scheduler ticks at this time.
    Tick(u64),
    /// A response is applied at this time.
    Response(ResponseView, u64),
}

/// The state after a run of ticks and responses.
pub open spec fn after_events(app: AppView, events: Seq<ConsumerEvent>) -> AppView
    decreases events.len(),
{
    if events.len() == 0 {
        app
    } else {
        let before = after_events(app, events.drop_last());
        match events.last() {
            ConsumerEvent::Tick(now) => before.tick(now).0,
            ConsumerEvent::Response(response, now) => before.apply(response, now),
        }
    }
}

/// How many reads the scheduler asks for in a run of ticks and responses.
pub open spec fn requests(app: AppView, events: Seq<ConsumerEvent>) -> int
    decreases events.len(),
{
    if events.len() == 0 {
        0
    } else {
        let before = after_events(app, events.drop_last());
        requests(app, events.drop_last()) + match events.last() {
            ConsumerEvent::Tick(now) => if before.tick(now).1 is Some {
                1int
            } else {
                0int
            },
            ConsumerEvent::Response(response, now) => 0int,
        }
    }
}

/// Every tick of the run falls into the window of `THROTTLE_MS`
/// milliseconds that begins at `start`.
pub open spec fn ticks_within(events: Seq<ConsumerEvent>, start: u64) -> bool {
    forall|i: int|
        0 <= i < events.len() ==> match #[trigger] events[i] {
            ConsumerEvent::Tick(now) => start <= now < start + THROTTLE_MS,
            ConsumerEvent::Response(response, now) => true,
        }
}

/// No response of the run tells of the end of the connection.
pub open spec fn connection_lasts(events: Seq<ConsumerEvent>) -> bool {
    forall|i: int|
        0 <= i < events.len() ==> match #[trigger] events[i] {
            ConsumerEvent::Tick(now) => true,
            ConsumerEvent::Response(response, now) => !(response is Disconnected),
        }
}

/// Every read that the scheduler asks for is handed to the worker, and
/// nothing else is: while the handle stays, a run of ticks and responses
/// makes the record of handed commands longer by the number of reads
/// asked for.
pub proof fn lemma_requests_are_handed(app: AppView, events: Seq<ConsumerEvent>)
    requires
        app.has_worker(),
        connection_lasts(events),
    ensures
        after_events(app, events).has_worker(),
        after_events(app, events).handed().len() == app.handed().len() + requests(app, events),
    decreases events.len(),
{
    if events.len() > 0 {
        let earlier = events.drop_last();
        assert forall|i: int| 0 <= i < earlier.len() implies match #[trigger] earlier[i] {
            ConsumerEvent::Tick(now) => true,
            ConsumerEvent::Response(response, now) => !(response is Disconnected),
        } by {
            assert(earlier[i] == events[i]);
        }
        lemma_requests_are_handed(app, earlier);
        assert(events.last() == events[events.len() - 1]);
    }
}

/// Throttling: however often the scheduler ticks within one window of
/// `THROTTLE_MS` milliseconds, and whatever responses come in between, it
/// asks for at most one read.
pub proof fn lemma_one_request_per_window(app: AppView, events: Seq<ConsumerEvent>, start: u64)
    requires
        ticks_within(events, start),
    ensures
        0 <= requests(app, events) <= 1,
        requests(app, events) == 1 ==> start <= after_events(app, events).last_refresh < start
            + THROTTLE_MS,
    decreases events.len(),
{
    if events.len() > 0 {
        let earlier = events.drop_last();
        assert forall|i: int| 0 <= i < earlier.len() implies match #[trigger] earlier[i] {
            ConsumerEvent::Tick(now) => start <= now < start + THROTTLE_MS,
            ConsumerEvent::Response(response, now) => true,
        } by {
            assert(earlier[i] == events[i]);
        }
        lemma_one_request_per_window(app, earlier, start);
        assert(events.last() == events[events.len() - 1]);
    }
}


/// Builds a text from three parts.
fn joined3(first: &str, second: &str, third: &str) -> (res: String)
    ensures
        res@ == first@ + second@ + third@,
{
    let mut res = String::from_str(first);
    res.append(second);
    res.append(third);
    res
}

/// The consumer's view-model.
pub struct FreeMduApp {
    available_ports: Vec<String>,
    selected_port: usize,
    connection_state: ConnectionState,
    worker: Option<WorkerHandle>,
    properties: PropertyStorage,
    status_message: Option<(String, u64, bool)>,
    auto_refresh: bool,
    last_refresh: u64,
}

impl View for FreeMduApp {
    type V = AppView;

    closed spec fn view(&self) -> AppView {
        AppView {
            ports: views(self.available_ports@),
            selected_port: if self.selected_port < self.available_ports.len() {
                self.selected_port as int
            } else {
                0
            },
            connection: self.connection_state@,
            worker: match self.worker {
                Some(handle) => Some(handle@),
                None => None,
            },
            properties: self.properties@,
            status: match self.status_message {
                Some((text, time, is_error)) => Some(StatusView { text: text@, time, is_error }),
                None => None,
            },
            auto_refresh: self.auto_refresh,
            last_refresh: self.last_refresh,
        }
    }
}

impl FreeMduApp {
    /// The state at the start, at time `now`: the ports that were found,
    /// the first of them selected, no connection, nothing known,
    /// auto-refresh on.
    pub fn new(ports: Vec<String>, now: u64) -> (res: Self)
        ensures
            res@ == (AppView {
                ports: views(ports@),
                selected_port: 0,
                connection: ConnectionView::Disconnected,
                worker: None,
                properties: StorageView::empty(),
                status: None,
                auto_refresh: true,
                last_refresh: now,
            }),
    {
        FreeMduApp {
            available_ports: ports,
            selected_port: 0,
            connection_state: ConnectionState::Disconnected,
            worker: None,
            properties: PropertyStorage::default(),
            status_message: None,
            auto_refresh: true,
            last_refresh: now,
        }
    }

    /// Takes a new list of ports. The selection stays where it still
    /// points at a port, and goes to the first port otherwise.
    pub fn refresh_ports(&mut self, ports: Vec<String>)
        ensures
            final(self)@ == (AppView {
                ports: views(ports@),
                selected_port: if old(self)@.selected_port < ports.len() {
                    old(self)@.selected_port
                } else {
                    0
                },
                ..old(self)@
            }),
    {
        if self.selected_port >= self.available_ports.len() {
            self.selected_port = 0;
        }
        self.available_ports = ports;
        if self.selected_port >= self.available_ports.len() {
            self.selected_port = 0;
        }
    }

    /// Selects a port by its index; an index that points at no port
    /// changes nothing.
    pub fn select_port(&mut self, index: usize)
        ensures
            final(self)@ == (AppView {
                selected_port: if index < old(self)@.ports.len() {
                    index as int
                } else {
                    old(self)@.selected_port
                },
                ..old(self)@
            }),
    {
        if index < self.available_ports.len() {
            self.selected_port = index;
        }
    }

    /// Switches auto-refresh on or off.
    pub fn set_auto_refresh(&mut self, on: bool)
        ensures
            final(self)@ == (AppView { auto_refresh: on, ..old(self)@ }),
    {
        self.auto_refresh = on;
    }

    /// Sets the status message.
    pub fn set_status(&mut self, message: &str, is_error: bool, now: u64)
        ensures
            final(self)@ == old(self)@.with_status(message@, is_error, now),
    {
        self.status_message = Some((String::from_str(message), now, is_error));
    }

    /// The user asks for a connection. With no port to go to, the status
    /// says so and nothing else changes. Otherwise the state becomes
    /// `Connecting` and the result is the port on which a worker is to be
    /// started.
    pub fn connect(&mut self, now: u64) -> (port: Option<String>)
        ensures
            final(self)@ == old(self)@.connecting(now),
            text_view(port) == old(self)@.port_to_open(),
    {
        if self.available_ports.len() == 0 {
            self.set_status("No serial ports available", true, now);
            return None;
        }
        let index = if self.selected_port < self.available_ports.len() {
            self.selected_port
        } else {
            0
        };
        let port = self.available_ports[index].clone();
        self.connection_state = ConnectionState::Connecting;
        Some(port)
    }

    /// Takes the outcome of starting a worker on `port`. A handle is kept
    /// and the status tells of the attempt; a failure becomes the error
    /// state, with its reason in the status.
    pub fn attach(&mut self, port: &str, started: Result<WorkerHandle, String>, now: u64)
        ensures
            final(self)@ == match started {
                Ok(handle) => (AppView { worker: Some(handle@), ..old(self)@ }).with_status(
                    "Connecting to "@ + port@ + "..."@,
                    false,
                    now,
                ),
                Err(reason) => (AppView {
                    connection: ConnectionView::Error(reason@),
                    ..old(self)@
                }).with_status("Failed to connect: "@ + reason@, true, now),
            },
    {
        match started {
            Ok(handle) => {
                self.worker = Some(handle);
                let text = joined3("Connecting to ", port, "...");
                self.status_message = Some((text, now, false));
            },
            Err(reason) => {
                let text = joined3("Failed to connect: ", reason.as_str(), "");
                assert(text@ =~= "Failed to connect: "@ + reason@) by {
                    reveal_strlit("");
                }
                self.connection_state = ConnectionState::Error(reason);
                self.status_message = Some((text, now, true));
            },
        }
    }

    /// The user ends the connection: the handle goes, and with it the
    /// worker is told to disconnect; everything known of the device is
    /// forgotten.
    pub fn disconnect(&mut self, now: u64)
        ensures
            final(self)@ == old(self)@.disconnected(now),
    {
        self.worker = None;
        self.connection_state = ConnectionState::Disconnected;
        self.properties.clear();
        self.set_status("Disconnected", false, now);
    }

    /// Applies one response of the worker, received at `now`.
    pub fn apply_response(&mut self, response: WorkerResponse, now: u64)
        ensures
            final(self)@ == old(self)@.apply(response@, now),
    {
        match response {
            WorkerResponse::Connected(info) => {
                let mut text = joined3("Connected to ", info.kind.name(), " (ID: ");
                let id = decimal_string(info.software_id as u64);
                text.append(id.as_str());
                text.append(")");
                self.status_message = Some((text, now, false));
                self.connection_state = ConnectionState::Connected(info);
            },
            WorkerResponse::Properties(kind, data) => {
                self.properties.store(kind, data, now);
            },
            WorkerResponse::ActionResult(name, success, message) => {
                if success {
                    let text = joined3("Action '", name.as_str(), "' executed");
                    self.status_message = Some((text, now, false));
                } else {
                    let mut text = joined3("Action '", name.as_str(), "' failed: ");
                    text.append(message.as_str());
                    self.status_message = Some((text, now, true));
                }
            },
            WorkerResponse::Error(message) => {
                let text = joined3("Error: ", message.as_str(), "");
                assert(text@ =~= "Error: "@ + message@) by {
                    reveal_strlit("");
                }
                self.connection_state = ConnectionState::Error(message);
                self.status_message = Some((text, now, true));
            },
            WorkerResponse::Disconnected => {
                self.connection_state = ConnectionState::Disconnected;
                self.worker = None;
                self.set_status("Device disconnected", true, now);
            },
        }
    }

    /// Applies the responses that were taken from the queue, in order.
    pub fn process_worker_responses(&mut self, responses: Vec<WorkerResponse>, now: u64)
        ensures
            final(self)@ == old(self)@.apply_all(views(responses@), now),
    {
        let ghost all = views(responses@);
        let ghost total = all.len();
        assert(total == responses.len());
        let mut source = responses;
        let mut rest: Vec<WorkerResponse> = Vec::new();
        while source.len() > 0
            invariant
                source.len() + rest.len() == total,
                total == all.len(),
                total <= usize::MAX,
                forall|i: int| 0 <= i < source.len() ==> (#[trigger] source[i])@ == all[i],
                forall|i: int| 0 <= i < rest.len() ==> (#[trigger] rest[i])@ == all[total - 1 - i],
            decreases source.len(),
        {
            let response = source.pop().unwrap();
            rest.push(response);
        }
        let mut done: usize = 0;
        while rest.len() > 0
            invariant
                done + rest.len() == total,
                total == all.len(),
                total <= usize::MAX,
                forall|i: int| 0 <= i < rest.len() ==> (#[trigger] rest[i])@ == all[total - 1 - i],
                self@ == old(self)@.apply_all(all.take(done as int), now),
            decreases rest.len(),
        {
            let response = rest.pop().unwrap();
            assert(response@ == all[done as int]);
            assert(all.take(done + 1).drop_last() =~= all.take(done as int));
            self.apply_response(response, now);
            done += 1;
        }
        assert(all.take(done as int) =~= all);
    }

    /// Whether the handle has told the consumer of the end of the
    /// connection; without a handle nothing has been told.
    pub open spec fn worker_ended(&self) -> bool {
        self@.worker_ended()
    }

    /// The commands that the handle has put into its queue, in order;
    /// without a handle there are none.
    pub open spec fn handed(&self) -> Seq<CommandView> {
        self@.handed()
    }

    /// Takes at most one response from the worker's queue, without
    /// waiting. Without a handle there is none. With a handle, the
    /// response is what the handle makes of what its queue holds: a
    /// waiting response is handed on, and a closed queue is told as
    /// `Disconnected` unless the end was told before. The end counts as
    /// told afterwards exactly if it did before or a terminal response is
    /// handed out now. Nothing else changes.
    pub fn poll_worker(&mut self) -> (res: Option<WorkerResponse>)
        ensures
            final(self)@ == (AppView {
                worker: match old(self)@.worker {
                    Some(handle) => Some(
                        HandleView { ended: final(self).worker_ended(), ..handle },
                    ),
                    None => None,
                },
                ..old(self)@
            }),
            !old(self)@.has_worker() ==> res is None,
            final(self).worker_ended() == (old(self).worker_ended() || (res is Some
                && res.unwrap()@.is_terminal())),
            exists|poll: PollView|
                (final(self).worker_ended(), response_view(res)) == #[trigger] deliver_spec(
                    old(self).worker_ended(),
                    poll,
                ),
    {
        let res = match &mut self.worker {
            Some(handle) => handle.try_recv(),
            None => None,
        };
        proof {
            let before = old(self).worker_ended();
            let found = if old(self).worker is Some {
                choose|poll: PollView|
                    (self.worker_ended(), response_view(res)) == #[trigger] deliver_spec(
                        before,
                        poll,
                    )
            } else {
                PollView::Empty
            };
            assert((self.worker_ended(), response_view(res)) == deliver_spec(before, found));
        }
        res
    }

    /// Asks the worker to read a group: with a handle, the query for the
    /// group is handed to it, behind the commands handed over before. The
    /// result says whether there was a handle.
    pub fn request_property_update(&mut self, kind: PropertyKind) -> (sent: bool)
        ensures
            final(self)@ == old(self)@.handing(CommandView::QueryProperties(kind)),
            sent == old(self)@.has_worker(),
            final(self).handed() == if sent {
                old(self).handed().push(CommandView::QueryProperties(kind))
            } else {
                old(self).handed()
            },
    {
        match &mut self.worker {
            Some(handle) => {
                handle.send(WorkerCommand::QueryProperties(kind));
                true
            },
            None => false,
        }
    }

    /// One tick of the scheduler at `now`. Where auto-refresh is on, the
    /// connection stands and the last look lies `THROTTLE_MS` back, it
    /// notes the time and hands the worker the query for the first group
    /// that is due; the result names that group. A tick that does not
    /// look, or finds no group due, hands nothing over.
    pub fn auto_refresh_properties(&mut self, now: u64) -> (asked: Option<PropertyKind>)
        ensures
            (final(self)@, asked) == old(self)@.tick(now),
            final(self).handed() == match asked {
                Some(kind) => if old(self)@.has_worker() {
                    old(self).handed().push(CommandView::QueryProperties(kind))
                } else {
                    old(self).handed()
                },
                None => old(self).handed(),
            },
    {
        if !self.auto_refresh {
            return None;
        }
        match self.connection_state {
            ConnectionState::Connected(_) => {},
            _ => {
                return None;
            },
        }
        if elapsed(now, self.last_refresh) < THROTTLE_MS {
            return None;
        }
        self.last_refresh = now;
        let asked = next_due(&self.properties, now);
        match asked {
            Some(kind) => {
                self.request_property_update(kind);
            },
            None => {},
        }
        asked
    }

    /// Makes every group due again; the batches stay until new ones come.
    pub fn refresh_all(&mut self)
        ensures
            final(self)@ == (AppView { properties: old(self)@.properties.stale(), ..old(self)@ }),
    {
        self.properties.mark_stale();
    }

    /// Asks the worker to run an action: with a handle, the command with
    /// the action's id and the staged parameter, if there is one, is
    /// handed to it, behind the commands handed over before. The result
    /// says whether there was a handle.
    pub fn trigger_action(&mut self, action_id: &str, param: Option<String>) -> (sent: bool)
        ensures
            final(self)@ == old(self)@.handing(
                CommandView::TriggerAction(action_id@, text_view(param)),
            ),
            sent == old(self)@.has_worker(),
            final(self).handed() == if sent {
                old(self).handed().push(CommandView::TriggerAction(action_id@, text_view(param)))
            } else {
                old(self).handed()
            },
    {
        match &mut self.worker {
            Some(handle) => {
                handle.send(WorkerCommand::TriggerAction(String::from_str(action_id), param));
                true
            },
            None => false,
        }
    }

    /// The state of the connection.
    pub fn connection_state(&self) -> (res: &ConnectionState)
        ensures
            res@ == self@.connection,
    {
        &self.connection_state
    }

    /// What is known of the device's properties.
    pub fn properties(&self) -> (res: &PropertyStorage)
        ensures
            res@ == self@.properties,
    {
        &self.properties
    }

    /// The ports to choose from.
    pub fn available_ports(&self) -> (res: &Vec<String>)
        ensures
            views(res@) == self@.ports,
    {
        &self.available_ports
    }

    /// The index of the selected port.
    pub fn selected_port(&self) -> (res: usize)
        ensures
            res == self@.selected_port,
    {
        if self.selected_port < self.available_ports.len() {
            self.selected_port
        } else {
            0
        }
    }

    /// Whether auto-refresh is on.
    pub fn auto_refresh(&self) -> (res: bool)
        ensures
            res == self@.auto_refresh,
    {
        self.auto_refresh
    }

    /// Whether a connection stands or is being made.
    pub fn is_busy(&self) -> (res: bool)
        ensures
            res == (self@.connection is Connected || self@.connection is Connecting),
    {
        match self.connection_state {
            ConnectionState::Connected(_) => true,
            ConnectionState::Connecting => true,
            _ => false,
        }
    }

    /// The status message and whether it tells of an error, as long as it
    /// is shown: for `STATUS_LIFETIME_MS` after it was set.
    pub fn visible_status(&self, now: u64) -> (res: Option<(String, bool)>)
        ensures
            match res {
                Some((text, is_error)) => self@.visible_status(now) == Some(
                    StatusView { text: text@, time: self@.status.unwrap().time, is_error },
                ),
                None => self@.visible_status(now) is None,
            },
    {
        match &self.status_message {
            Some((text, time, is_error)) => {
                if elapsed(now, *time) < STATUS_LIFETIME_MS {
                    Some((text.clone(), *is_error))
                } else {
                    None
                }
            },
            None => None,
        }
    }
}


/// The word for a state of the connection.
pub open spec fn connection_label(state: ConnectionView) -> Seq<char> {
    match state {
        ConnectionView::Disconnected => "Disconnected"@,
        ConnectionView::Connecting => "Connecting..."@,
        ConnectionView::Connected(_) => "Connected"@,
        ConnectionView::Error(_) => "Error"@,
    }
}

impl ConnectionState {
    /// The word for the state.
    pub fn label(&self) -> (res: &'static str)
        ensures
            res@ == connection_label(self@),
    {
        match self {
            ConnectionState::Disconnected => "Disconnected",
            ConnectionState::Connecting => "Connecting...",
            ConnectionState::Connected(_) => "Connected",
            ConnectionState::Error(_) => "Error",
        }
    }
}

/// What is shown for one group of properties.
#[derive(Clone, Copy, Debug, PartialEq, Eq, Structural)]
pub enum SectionState {
    /// No batch has come yet.
    Loading,
    /// The last batch was empty.
    Empty,
    /// The last batch is listed.
    Listed,
}

/// What is shown for a group, by what is known of it.
pub open spec fn section_state(slot: SlotView) -> SectionState {
    if slot.1 is None {
        SectionState::Loading
    } else if slot.0.len() == 0 {
        SectionState::Empty
    } else {
        SectionState::Listed
    }
}

impl FreeMduApp {
    /// What is shown for a group of properties.
    pub fn section(&self, kind: PropertyKind) -> (res: SectionState)
        ensures
            res == section_state(self@.properties.slot(kind)),
    {
        let slot = self.properties.get(kind);
        if slot.1.is_none() {
            SectionState::Loading
        } else if slot.0.len() == 0 {
            SectionState::Empty
        } else {
            SectionState::Listed
        }
    }

    /// How long ago the last batch of a group came, in words; nothing while
    /// none has come.
    pub fn age_label(&self, kind: PropertyKind, now: u64) -> (res: Option<String>)
        ensures
            text_view(res) == match self@.properties.slot(kind).1 {
                Some(then) => Some(age_text(elapsed_ms(now, then))),
                None => None,
            },
    {
        match self.properties.get(kind).1 {
            Some(then) => Some(format_age(elapsed(now, then))),
            None => None,
        }
    }

    /// The text of the port selector: the selected port, or a note that
    /// there is none.
    pub fn port_label(&self) -> (res: String)
        ensures
            res@ == match self@.port_to_open() {
                Some(port) => port,
                None => "No ports found"@,
            },
    {
        if self.available_ports.len() == 0 {
            String::from_str("No ports found")
        } else {
            self.available_ports[self.selected()].clone()
        }
    }

    fn selected(&self) -> (res: usize)
        ensures
            res == self@.selected_port,
            self.available_ports.len() > 0 ==> res < self.available_ports.len(),
    {
        if self.selected_port < self.available_ports.len() {
            self.selected_port
        } else {
            0
        }
    }
}

} // verus!
