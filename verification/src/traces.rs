//! Runs of the worker: what a whole sequence of events makes it send, and
//! the laws that hold of every run.

use crate::actions::ActionInfoView;
use crate::messages::{CommandView, ResponseView};
use crate::types::{PropertyDataView, PropertyKind};
use crate::worker::{
    action_result, find_action, find_action_from, next_matching, reading, EventView, PhaseView,
    PropertyInfoView, QueryOutcomeView, StepView, TriggerOutcomeView, WorkerView,
};
use vstd::prelude::*;

verus! {

/// The responses that one step sends.
pub open spec fn sent(step: StepView) -> Seq<ResponseView> {
    match step.emit {
        Some(response) => seq![response],
        None => Seq::empty(),
    }
}

/// The worker after the events, and the responses sent on the way, in the
/// order in which they were sent. A refused event changes nothing.
pub open spec fn run(worker: WorkerView, events: Seq<EventView>) -> (WorkerView, Seq<ResponseView>)
    decreases events.len(),
{
    if events.len() == 0 {
        (worker, Seq::empty())
    } else {
        let (after, first) = match worker.step(events[0]) {
            Some((next, step)) => (next, sent(step)),
            None => (worker, Seq::empty()),
        };
        let (last, rest) = run(after, events.drop_first());
        (last, first + rest)
    }
}

/// How many operations on the device a worker has under way.
pub open spec fn in_flight(worker: WorkerView) -> int {
    if worker.phase is Handshaking || worker.phase is Querying || worker.phase is Triggering {
        1
    } else {
        0
    }
}

/// Whether the event reports the end of an operation on the device.
pub open spec fn ends_operation(event: EventView) -> bool {
    event is Handshake || event is QueryDone || event is TriggerDone
}

/// How many operations on the device the run asks for.
pub open spec fn asked(worker: WorkerView, events: Seq<EventView>) -> int
    decreases events.len(),
{
    if events.len() == 0 {
        0
    } else {
        match worker.step(events[0]) {
            Some((next, step)) => (if step.next.is_device_operation() {
                1int
            } else {
                0int
            }) + asked(next, events.drop_first()),
            None => asked(worker, events.drop_first()),
        }
    }
}

/// How many operations on the device the run sees ended.
pub open spec fn ended(worker: WorkerView, events: Seq<EventView>) -> int
    decreases events.len(),
{
    if events.len() == 0 {
        0
    } else {
        match worker.step(events[0]) {
            Some((next, step)) => (if ends_operation(events[0]) {
                1int
            } else {
                0int
            }) + ended(next, events.drop_first()),
            None => ended(worker, events.drop_first()),
        }
    }
}

/// A step keeps the worker well formed.
pub proof fn lemma_step_keeps_wf(worker: WorkerView, event: EventView)
    requires
        worker.wf(),
    ensures
        match worker.step(event) {
            Some((next, step)) => next.wf(),
            None => true,
        },
{
    match worker.step(event) {
        Some((next, step)) => {
            match worker.phase {
                PhaseView::Idle => match event {
                    EventView::Command(CommandView::QueryProperties(kind)) => {
                        lemma_next_matching(worker.properties, kind, 0);
                    },
                    EventView::Command(CommandView::TriggerAction(id, param)) => {
                        lemma_find_action(worker.actions, id, 0);
                    },
                    _ => {},
                },
                PhaseView::Querying { kind, index, collected } => {
                    lemma_next_matching(worker.properties, kind, index + 1);
                },
                _ => {},
            }
        },
        None => {},
    }
}

/// What a device says of itself is taken once: after the handshake no
/// step changes the properties or the actions that the worker knows.
pub proof fn lemma_description_is_fixed(worker: WorkerView, event: EventView)
    requires
        !(worker.phase is Handshaking),
    ensures
        match worker.step(event) {
            Some((next, step)) => next.properties == worker.properties && next.actions
                == worker.actions,
            None => true,
        },
{
}

/// A consumer that goes ends the worker: a waiting worker stops on the
/// command to disconnect, which it answers with `Disconnected`, and on a
/// closed command queue, on which it sends nothing.
pub proof fn lemma_consumer_gone_stops_worker(worker: WorkerView)
    requires
        worker.phase is Idle,
    ensures
        run(worker, seq![EventView::Command(CommandView::Disconnect)]) == (
            worker.in_phase(PhaseView::Stopped),
            seq![ResponseView::Disconnected],
        ),
        run(worker, seq![EventView::ChannelClosed]) == (
            worker.in_phase(PhaseView::Stopped),
            Seq::<ResponseView>::empty(),
        ),
{
    lemma_run_one(worker, EventView::Command(CommandView::Disconnect));
    lemma_run_one(worker, EventView::ChannelClosed);
}

/// What `find_action_from` finds lies in range and has the id.
pub proof fn lemma_find_action(actions: Seq<ActionInfoView>, id: Seq<char>, from: int)
    requires
        0 <= from <= actions.len(),
    ensures
        match find_action_from(actions, id, from) {
            Some(index) => from <= index < actions.len() && actions[index].id == id && forall|
                i: int,
            |
                from <= i < index ==> actions[i].id != id,
            None => forall|i: int| from <= i < actions.len() ==> actions[i].id != id,
        },
    decreases actions.len() - from,
{
    if from < actions.len() && actions[from].id != id {
        lemma_find_action(actions, id, from + 1);
    }
}

/// The position of the property at `upto` among those of `kind`: how many
/// properties of `kind` stand before it.
pub open spec fn rank(properties: Seq<PropertyInfoView>, kind: PropertyKind, upto: int) -> int
    decreases upto,
{
    if upto <= 0 {
        0
    } else {
        rank(properties, kind, upto - 1) + if upto - 1 < properties.len() && properties[upto
            - 1].kind == kind {
            1int
        } else {
            0int
        }
    }
}

/// What one outcome adds to a batch.
pub open spec fn gained(property: PropertyInfoView, outcome: QueryOutcomeView) -> Seq<
    PropertyDataView,
> {
    match outcome {
        QueryOutcomeView::Value(value) => seq![reading(property, value)],
        _ => Seq::empty(),
    }
}

/// The batch that the properties of `kind` from index `from` on give, when
/// `outcomes` holds the outcome of each of them, in order: the readings of
/// those that gave a value.
pub open spec fn batch_from(
    properties: Seq<PropertyInfoView>,
    kind: PropertyKind,
    from: int,
    outcomes: Seq<QueryOutcomeView>,
) -> Seq<PropertyDataView>
    decreases properties.len() - from,
{
    if from < 0 || from >= properties.len() {
        Seq::empty()
    } else if properties[from].kind != kind {
        batch_from(properties, kind, from + 1, outcomes)
    } else if outcomes.len() == 0 {
        Seq::empty()
    } else {
        gained(properties[from], outcomes[0]) + batch_from(
            properties,
            kind,
            from + 1,
            outcomes.drop_first(),
        )
    }
}

/// The batch that a query of `kind` gives.
pub open spec fn batch(
    properties: Seq<PropertyInfoView>,
    kind: PropertyKind,
    outcomes: Seq<QueryOutcomeView>,
) -> Seq<PropertyDataView> {
    batch_from(properties, kind, 0, outcomes)
}

/// How many of the first `upto` outcomes gave a value.
pub open spec fn successes(outcomes: Seq<QueryOutcomeView>, upto: int) -> int
    decreases outcomes.len(),
{
    if upto <= 0 || outcomes.len() == 0 {
        0
    } else {
        (if outcomes[0] is Value {
            1int
        } else {
            0int
        }) + successes(outcomes.drop_first(), upto - 1)
    }
}

/// What `next_matching` finds is the first property of the kind at or
/// after `from`; between `from` and it the rank stands still.
pub proof fn lemma_next_matching(properties: Seq<PropertyInfoView>, kind: PropertyKind, from: int)
    requires
        0 <= from <= properties.len(),
    ensures
        match next_matching(properties, kind, from) {
            Some(index) => from <= index < properties.len() && properties[index].kind == kind
                && rank(properties, kind, index) == rank(properties, kind, from) && forall|i: int|
                from <= i < index ==> properties[i].kind != kind,
            None => rank(properties, kind, properties.len() as int) == rank(
                properties,
                kind,
                from,
            ) && forall|i: int| from <= i < properties.len() ==> properties[i].kind != kind,
        },
    decreases properties.len() - from,
{
    if from < properties.len() && properties[from].kind != kind {
        lemma_next_matching(properties, kind, from + 1);
    }
}

/// Properties of another kind add nothing to a batch.
pub proof fn lemma_batch_skips(
    properties: Seq<PropertyInfoView>,
    kind: PropertyKind,
    from: int,
    outcomes: Seq<QueryOutcomeView>,
)
    requires
        0 <= from <= properties.len(),
    ensures
        batch_from(properties, kind, from, outcomes) == match next_matching(
            properties,
            kind,
            from,
        ) {
            Some(index) => batch_from(properties, kind, index, outcomes),
            None => Seq::empty(),
        },
    decreases properties.len() - from,
{
    if from < properties.len() && properties[from].kind != kind {
        lemma_batch_skips(properties, kind, from + 1, outcomes);
    }
}

/// The rank never falls.
pub proof fn lemma_rank_grows(
    properties: Seq<PropertyInfoView>,
    kind: PropertyKind,
    low: int,
    high: int,
)
    requires
        0 <= low <= high,
    ensures
        rank(properties, kind, low) <= rank(properties, kind, high),
    decreases high - low,
{
    if low < high {
        lemma_rank_grows(properties, kind, low, high - 1);
    }
}


/// A run over two sequences of events, one after the other, is the run
/// over the first followed by the run over the second from where the first
/// ended.
pub proof fn lemma_run_concat(worker: WorkerView, first: Seq<EventView>, second: Seq<EventView>)
    ensures
        run(worker, first + second) == (
            run(run(worker, first).0, second).0,
            run(worker, first).1 + run(run(worker, first).0, second).1,
        ),
    decreases first.len(),
{
    if first.len() == 0 {
        assert(first + second =~= second);
        assert(Seq::<ResponseView>::empty() + run(worker, second).1 =~= run(worker, second).1);
    } else {
        let all = first + second;
        assert(all[0] == first[0]);
        assert(all.drop_first() =~= first.drop_first() + second);
        let (after, head) = match worker.step(first[0]) {
            Some((next, step)) => (next, sent(step)),
            None => (worker, Seq::empty()),
        };
        lemma_run_concat(after, first.drop_first(), second);
        let middle = run(after, first.drop_first());
        let tail = run(middle.0, second);
        assert(head + (middle.1 + tail.1) =~= (head + middle.1) + tail.1);
    }
}

/// A worker that has stopped stays so and sends nothing more.
pub proof fn lemma_stopped_is_silent(worker: WorkerView, events: Seq<EventView>)
    requires
        worker.phase is Stopped,
    ensures
        run(worker, events) == (worker, Seq::<ResponseView>::empty()),
    decreases events.len(),
{
    if events.len() > 0 {
        lemma_stopped_is_silent(worker, events.drop_first());
        assert(Seq::<ResponseView>::empty() + Seq::<ResponseView>::empty() =~= Seq::<
            ResponseView,
        >::empty());
    }
}

/// One operation at a time: along every run of a well-formed worker, the
/// operations on the device that were asked for and have not ended number
/// as many as the worker has under way at the end, which is none or one.
/// Since this holds of every run, it holds at every point of a run.
pub proof fn lemma_single_flight(worker: WorkerView, events: Seq<EventView>)
    requires
        worker.wf(),
    ensures
        in_flight(worker) + asked(worker, events) - ended(worker, events) == in_flight(
            run(worker, events).0,
        ),
        0 <= in_flight(run(worker, events).0) <= 1,
        run(worker, events).0.wf(),
    decreases events.len(),
{
    if events.len() > 0 {
        lemma_step_keeps_wf(worker, events[0]);
        match worker.step(events[0]) {
            Some((next, step)) => {
                assert(in_flight(next) == in_flight(worker) + (if step.next.is_device_operation() {
                    1int
                } else {
                    0int
                }) - (if ends_operation(events[0]) {
                    1int
                } else {
                    0int
                }));
                lemma_single_flight(next, events.drop_first());
            },
            None => {
                lemma_single_flight(worker, events.drop_first());
            },
        }
    }
}

/// An operation on the device is asked for only by a worker that has none
/// under way, or by the step that takes the end of the one under way.
pub proof fn lemma_no_overlap(worker: WorkerView, event: EventView)
    requires
        worker.wf(),
    ensures
        match worker.step(event) {
            Some((next, step)) => step.next.is_device_operation() ==> (in_flight(worker) == 0
                || ends_operation(event)) && in_flight(next) == 1,
            None => true,
        },
{
}

/// The events that report the outcomes of the queries of one batch.
pub open spec fn query_events(outcomes: Seq<QueryOutcomeView>) -> Seq<EventView> {
    outcomes.map_values(|outcome: QueryOutcomeView| EventView::QueryDone(outcome))
}

/// A worker that reads a group, fed the outcome of each property of the
/// group that is still to come, sends one batch and waits for the next
/// command: the batch holds what was collected before, then the readings
/// of the properties that gave a value, in the device's order.
pub proof fn lemma_query_run(
    worker: WorkerView,
    kind: PropertyKind,
    index: int,
    collected: Seq<PropertyDataView>,
    outcomes: Seq<QueryOutcomeView>,
)
    requires
        worker.wf(),
        worker.phase == (PhaseView::Querying { kind, index, collected }),
        outcomes.len() == rank(worker.properties, kind, worker.properties.len() as int) - rank(
            worker.properties,
            kind,
            index,
        ),
    ensures
        run(worker, query_events(outcomes)) == (
            worker.in_phase(PhaseView::Idle),
            seq![
                ResponseView::Properties(
                    kind,
                    collected + batch_from(worker.properties, kind, index, outcomes),
                ),
            ],
        ),
    decreases outcomes.len(),
{
    let properties = worker.properties;
    let events = query_events(outcomes);
    lemma_rank_grows(properties, kind, index + 1, properties.len() as int);
    assert(outcomes.len() >= 1);
    assert(events[0] == EventView::QueryDone(outcomes[0]));
    assert(events.drop_first() =~= query_events(outcomes.drop_first()));
    let grown = collected + gained(properties[index], outcomes[0]);
    assert(outcomes[0] is Value ==> grown =~= collected.push(
        reading(properties[index], outcomes[0]->Value_0),
    ));
    assert(!(outcomes[0] is Value) ==> grown =~= collected);
    assert(worker.step(events[0]) == Some(worker.read_on(kind, index + 1, grown)));
    lemma_next_matching(properties, kind, index + 1);
    lemma_batch_skips(properties, kind, index + 1, outcomes.drop_first());
    let rest = batch_from(properties, kind, index + 1, outcomes.drop_first());
    assert(batch_from(properties, kind, index, outcomes) == gained(properties[index], outcomes[0])
        + rest);
    assert(collected + (gained(properties[index], outcomes[0]) + rest) =~= grown + rest);
    match next_matching(properties, kind, index + 1) {
        Some(next_index) => {
            let next = worker.in_phase(
                PhaseView::Querying { kind, index: next_index, collected: grown },
            );
            lemma_query_run(next, kind, next_index, grown, outcomes.drop_first());
            assert(next.in_phase(PhaseView::Idle) == worker.in_phase(PhaseView::Idle));
            assert(run(next, events.drop_first()).1 == seq![
                ResponseView::Properties(kind, grown + rest),
            ]);
            assert(Seq::<ResponseView>::empty() + run(next, events.drop_first()).1 =~= run(
                next,
                events.drop_first(),
            ).1);
        },
        None => {
            assert(outcomes.drop_first().len() == 0);
            assert(grown + rest =~= grown);
            assert(seq![ResponseView::Properties(kind, grown)] + Seq::<ResponseView>::empty()
                =~= seq![ResponseView::Properties(kind, grown)]);
            let idle = worker.in_phase(PhaseView::Idle);
            assert(run(idle, events.drop_first()) == (idle, Seq::<ResponseView>::empty()));
        },
    }
}


/// Where each reading stands in a batch that starts at `from`: a property
/// of the kind that gave a value stands at the number of successes before
/// it, and the batch is as long as the number of successes.
pub proof fn lemma_batch_positions(
    properties: Seq<PropertyInfoView>,
    kind: PropertyKind,
    from: int,
    outcomes: Seq<QueryOutcomeView>,
)
    requires
        0 <= from <= properties.len(),
        outcomes.len() == rank(properties, kind, properties.len() as int) - rank(
            properties,
            kind,
            from,
        ),
    ensures
        batch_from(properties, kind, from, outcomes).len() == successes(
            outcomes,
            outcomes.len() as int,
        ),
        forall|i: int|
            from <= i < properties.len() && #[trigger] properties[i].kind == kind ==> {
                let position = rank(properties, kind, i) - rank(properties, kind, from);
                &&& 0 <= position < outcomes.len()
                &&& outcomes[position] is Value ==> {
                    let at = successes(outcomes, position);
                    &&& 0 <= at < batch_from(properties, kind, from, outcomes).len()
                    &&& batch_from(properties, kind, from, outcomes)[at] == reading(
                        properties[i],
                        outcomes[position]->Value_0,
                    )
                }
            },
    decreases properties.len() - from,
{
    let whole = batch_from(properties, kind, from, outcomes);
    if from < properties.len() {
        lemma_rank_grows(properties, kind, from + 1, properties.len() as int);
        if properties[from].kind != kind {
            lemma_batch_positions(properties, kind, from + 1, outcomes);
        } else {
            let later = outcomes.drop_first();
            let head = gained(properties[from], outcomes[0]);
            let tail = batch_from(properties, kind, from + 1, later);
            lemma_batch_positions(properties, kind, from + 1, later);
            assert(whole == head + tail);
            assert forall|i: int|
                from <= i < properties.len() && #[trigger] properties[i].kind == kind implies {
                let position = rank(properties, kind, i) - rank(properties, kind, from);
                &&& 0 <= position < outcomes.len()
                &&& outcomes[position] is Value ==> {
                    let at = successes(outcomes, position);
                    &&& 0 <= at < whole.len()
                    &&& whole[at] == reading(properties[i], outcomes[position]->Value_0)
                }
            } by {
                let position = rank(properties, kind, i) - rank(properties, kind, from);
                if i == from {
                    assert(position == 0);
                } else {
                    let before = rank(properties, kind, i) - rank(properties, kind, from + 1);
                    assert(position == before + 1);
                    assert(outcomes[position] == later[before]);
                    if outcomes[position] is Value {
                        assert(successes(outcomes, position) == head.len() + successes(
                            later,
                            before,
                        ));
                        assert(whole[head.len() + successes(later, before)] == tail[successes(
                            later,
                            before,
                        )]);
                    }
                }
            }
        }
    }
}

/// Partial failure: in the batch of a query, a property whose query gave a
/// value is there, at the place that the successes before it leave it, and
/// nothing else is: the batch is as long as the number of successes. So a
/// property whose query failed or timed out is left out, and the others
/// are not touched by it.
pub proof fn lemma_partial_failure(
    properties: Seq<PropertyInfoView>,
    kind: PropertyKind,
    outcomes: Seq<QueryOutcomeView>,
)
    requires
        outcomes.len() == rank(properties, kind, properties.len() as int),
    ensures
        batch(properties, kind, outcomes).len() == successes(outcomes, outcomes.len() as int),
        forall|i: int|
            0 <= i < properties.len() && #[trigger] properties[i].kind == kind ==> {
                let position = rank(properties, kind, i);
                &&& 0 <= position < outcomes.len()
                &&& outcomes[position] is Value ==> {
                    let at = successes(outcomes, position);
                    &&& 0 <= at < batch(properties, kind, outcomes).len()
                    &&& batch(properties, kind, outcomes)[at] == reading(
                        properties[i],
                        outcomes[position]->Value_0,
                    )
                }
            },
{
    lemma_batch_positions(properties, kind, 0, outcomes);
}

/// One command, with what the device does while the worker works on it:
/// the outcome of each property of the group, in order, for a query; the
/// outcome of the action, for a trigger.
pub struct Exchange {
    pub command: CommandView,
    pub queries: Seq<QueryOutcomeView>,
    pub trigger: TriggerOutcomeView,
}

impl Exchange {
    /// A query comes with one outcome for each property of its group.
    pub open spec fn fits(self, worker: WorkerView) -> bool {
        match self.command {
            CommandView::QueryProperties(kind) => self.queries.len() == rank(
                worker.properties,
                kind,
                worker.properties.len() as int,
            ),
            _ => true,
        }
    }

    /// The events that the driver reports during the exchange.
    pub open spec fn events(self, worker: WorkerView) -> Seq<EventView> {
        match self.command {
            CommandView::QueryProperties(kind) => seq![EventView::Command(self.command)]
                + query_events(self.queries),
            CommandView::TriggerAction(id, param) => if find_action(worker.actions, id) is Some {
                seq![EventView::Command(self.command), EventView::TriggerDone(self.trigger)]
            } else {
                seq![EventView::Command(self.command)]
            },
            CommandView::Disconnect => seq![EventView::Command(self.command)],
        }
    }

    /// What the consumer is owed for the command: one batch for a query,
    /// one result for an action that the device has and nothing for one
    /// that it has not, the farewell for a disconnect.
    pub open spec fn reply(self, worker: WorkerView) -> Seq<ResponseView> {
        match self.command {
            CommandView::QueryProperties(kind) => seq![
                ResponseView::Properties(kind, batch(worker.properties, kind, self.queries)),
            ],
            CommandView::TriggerAction(id, param) => match find_action(worker.actions, id) {
                Some(index) => seq![action_result(worker.actions[index].name, self.trigger)],
                None => Seq::empty(),
            },
            CommandView::Disconnect => seq![ResponseView::Disconnected],
        }
    }
}

/// The events of a run of exchanges, one exchange after the other.
pub open spec fn session_events(worker: WorkerView, exchanges: Seq<Exchange>) -> Seq<EventView>
    decreases exchanges.len(),
{
    if exchanges.len() == 0 {
        Seq::empty()
    } else {
        exchanges[0].events(worker) + session_events(worker, exchanges.drop_first())
    }
}

/// The replies to a run of commands, in the order of the commands; a
/// disconnect is the last command that is answered.
pub open spec fn session_replies(worker: WorkerView, exchanges: Seq<Exchange>) -> Seq<ResponseView>
    decreases exchanges.len(),
{
    if exchanges.len() == 0 {
        Seq::empty()
    } else if exchanges[0].command is Disconnect {
        exchanges[0].reply(worker)
    } else {
        exchanges[0].reply(worker) + session_replies(worker, exchanges.drop_first())
    }
}

/// A run over one event is one step.
pub proof fn lemma_run_one(worker: WorkerView, event: EventView)
    ensures
        run(worker, seq![event]) == match worker.step(event) {
            Some((next, step)) => (next, sent(step)),
            None => (worker, Seq::empty()),
        },
{
    let events = seq![event];
    let (after, first) = match worker.step(event) {
        Some((next, step)) => (next, sent(step)),
        None => (worker, Seq::empty()),
    };
    assert(events[0] == event);
    assert(run(after, events.drop_first()) == (after, Seq::<ResponseView>::empty()));
    assert(first + Seq::<ResponseView>::empty() =~= first);
}

/// A waiting worker answers one command with the reply that is owed for
/// it, and then waits again, unless the command was a disconnect.
pub proof fn lemma_exchange(worker: WorkerView, exchange: Exchange)
    requires
        worker.wf(),
        worker.phase is Idle,
        exchange.fits(worker),
    ensures
        run(worker, exchange.events(worker)) == (
            if exchange.command is Disconnect {
                worker.in_phase(PhaseView::Stopped)
            } else {
                worker
            },
            exchange.reply(worker),
        ),
{
    let command = EventView::Command(exchange.command);
    lemma_run_one(worker, command);
    match exchange.command {
        CommandView::QueryProperties(kind) => {
            let outcomes = exchange.queries;
            lemma_run_concat(worker, seq![command], query_events(outcomes));
            lemma_next_matching(worker.properties, kind, 0);
            lemma_batch_skips(worker.properties, kind, 0, outcomes);
            match next_matching(worker.properties, kind, 0) {
                Some(index) => {
                    let reading_on = worker.in_phase(
                        PhaseView::Querying { kind, index, collected: Seq::empty() },
                    );
                    lemma_query_run(reading_on, kind, index, Seq::empty(), outcomes);
                    let gathered = batch_from(worker.properties, kind, index, outcomes);
                    assert(Seq::<PropertyDataView>::empty() + gathered =~= gathered);
                    assert(Seq::<ResponseView>::empty() + seq![
                        ResponseView::Properties(kind, gathered),
                    ] =~= seq![ResponseView::Properties(kind, gathered)]);
                },
                None => {
                    assert(query_events(outcomes).len() == 0);
                    assert(seq![ResponseView::Properties(kind, Seq::empty())] + Seq::<
                        ResponseView,
                    >::empty() =~= seq![ResponseView::Properties(kind, Seq::empty())]);
                },
            }
        },
        CommandView::TriggerAction(id, param) => {
            lemma_find_action(worker.actions, id, 0);
            match find_action(worker.actions, id) {
                Some(index) => {
                    let done = EventView::TriggerDone(exchange.trigger);
                    assert(seq![command, done] =~= seq![command] + seq![done]);
                    lemma_run_concat(worker, seq![command], seq![done]);
                    lemma_run_one(worker.in_phase(PhaseView::Triggering { index }), done);
                    let result = action_result(worker.actions[index].name, exchange.trigger);
                    assert(Seq::<ResponseView>::empty() + seq![result] =~= seq![result]);
                },
                None => {},
            }
        },
        CommandView::Disconnect => {},
    }
}

/// First in, first out: a waiting worker that is given commands one after
/// the other, each with what the device does for it, sends the replies to
/// the commands in the order of the commands, each reply whole before the
/// next begins, and nothing else.
pub proof fn lemma_fifo(worker: WorkerView, exchanges: Seq<Exchange>)
    requires
        worker.wf(),
        worker.phase is Idle,
        forall|i: int| 0 <= i < exchanges.len() ==> (#[trigger] exchanges[i]).fits(worker),
    ensures
        run(worker, session_events(worker, exchanges)).1 == session_replies(worker, exchanges),
    decreases exchanges.len(),
{
    if exchanges.len() > 0 {
        let first = exchanges[0];
        let later = exchanges.drop_first();
        lemma_exchange(worker, first);
        lemma_run_concat(worker, first.events(worker), session_events(worker, later));
        if first.command is Disconnect {
            lemma_stopped_is_silent(
                worker.in_phase(PhaseView::Stopped),
                session_events(worker, later),
            );
            assert(first.reply(worker) + Seq::<ResponseView>::empty() =~= first.reply(worker));
        } else {
            assert forall|i: int| 0 <= i < later.len() implies (#[trigger] later[i]).fits(
                worker,
            ) by {
                assert(later[i] == exchanges[i + 1]);
            }
            lemma_fifo(worker, later);
        }
    }
}

} // verus!
