//! Process-wide record of the runs in flight, one counter per operation: an operation is busy
//! while its counter is above zero, so that the end of one run never hides another run that
//! is still going.

use crate::pipeline::{flight, in_flight, run, transition, Action, ActionView, EventView,
    PipelineView};
use crate::provider::Operation;
use vstd::prelude::*;

verus! {

/// The runs in flight, by operation.
#[derive(Debug, Clone, Copy, PartialEq, Eq, Structural)]
pub struct InvocationGuard {
    polish: u64,
    translate: u64,
}

/// The mathematical content of an `InvocationGuard`.
pub struct GuardView {
    pub polish: nat,
    pub translate: nat,
}

impl View for InvocationGuard {
    type V = GuardView;

    closed spec fn view(&self) -> GuardView {
        GuardView { polish: self.polish as nat, translate: self.translate as nat }
    }
}

/// The most runs of one operation that can be counted.
pub open spec fn capacity() -> nat {
    u64::MAX as nat
}

/// How many runs of `operation` are in flight.
pub open spec fn running(g: GuardView, operation: Operation) -> nat {
    match operation {
        Operation::Polish => g.polish,
        Operation::Translate => g.translate,
    }
}

/// Whether a run of `operation` is in flight.
pub open spec fn busy(g: GuardView, operation: Operation) -> bool {
    running(g, operation) > 0
}

/// The record with `n` runs of `operation` and the other operation as before.
pub open spec fn with_running(g: GuardView, operation: Operation, n: nat) -> GuardView {
    match operation {
        Operation::Polish => GuardView { polish: n, ..g },
        Operation::Translate => GuardView { translate: n, ..g },
    }
}

/// The record after a run of `operation` went in flight. A run beyond the capacity is not
/// counted.
pub open spec fn entered(g: GuardView, operation: Operation) -> GuardView {
    if running(g, operation) < capacity() {
        with_running(g, operation, running(g, operation) + 1)
    } else {
        g
    }
}

/// The record after a run of `operation` ended.
pub open spec fn exited(g: GuardView, operation: Operation) -> GuardView {
    if running(g, operation) > 0 {
        with_running(g, operation, (running(g, operation) - 1) as nat)
    } else {
        g
    }
}

/// The record after one action of a run of `operation`: the busy mark enters, the idle mark
/// exits, every other action leaves the record as it is.
pub open spec fn marked(g: GuardView, operation: Operation, action: ActionView) -> GuardView {
    match action {
        ActionView::MarkBusy => entered(g, operation),
        ActionView::MarkIdle => exited(g, operation),
        _ => g,
    }
}

/// The record after a list of actions of a run of `operation`, taken in order.
pub open spec fn marked_all(g: GuardView, operation: Operation, actions: Seq<ActionView>)
    -> GuardView
    decreases actions.len(),
{
    if actions.len() == 0 {
        g
    } else {
        marked(marked_all(g, operation, actions.drop_last()), operation, actions.last())
    }
}

impl InvocationGuard {
    /// A record with nothing in flight.
    pub fn new() -> (guard: InvocationGuard)
        ensures
            guard@ == (GuardView { polish: 0, translate: 0 }),
    {
        InvocationGuard { polish: 0, translate: 0 }
    }

    /// How many runs of `operation` are in flight.
    pub fn in_flight(&self, operation: Operation) -> (n: u64)
        ensures
            n == running(self@, operation),
    {
        match operation {
            Operation::Polish => self.polish,
            Operation::Translate => self.translate,
        }
    }

    /// Whether a run of `operation` is in flight.
    pub fn is_busy(&self, operation: Operation) -> (b: bool)
        ensures
            b == busy(self@, operation),
    {
        self.in_flight(operation) > 0
    }

    /// Whether any run is in flight.
    pub fn any_busy(&self) -> (b: bool)
        ensures
            b == (busy(self@, Operation::Polish) || busy(self@, Operation::Translate)),
    {
        self.polish > 0 || self.translate > 0
    }

    /// Counts a run of `operation` that goes in flight. Tells whether it was counted: a run
    /// is never turned away because others are in flight, only when the counter is at its
    /// capacity.
    pub fn enter(&mut self, operation: Operation) -> (counted: bool)
        ensures
            final(self)@ == entered(old(self)@, operation),
            counted == (running(old(self)@, operation) < capacity()),
    {
        match operation {
            Operation::Polish => {
                if self.polish < u64::MAX {
                    self.polish = self.polish + 1;
                    true
                } else {
                    false
                }
            },
            Operation::Translate => {
                if self.translate < u64::MAX {
                    self.translate = self.translate + 1;
                    true
                } else {
                    false
                }
            },
        }
    }

    /// Counts the end of a run of `operation`.
    pub fn exit(&mut self, operation: Operation)
        ensures
            final(self)@ == exited(old(self)@, operation),
    {
        match operation {
            Operation::Polish => {
                if self.polish > 0 {
                    self.polish = self.polish - 1;
                }
            },
            Operation::Translate => {
                if self.translate > 0 {
                    self.translate = self.translate - 1;
                }
            },
        }
    }

    /// Keeps the record in step with a run of `operation`: call it with every action that the
    /// run hands out.
    pub fn apply(&mut self, operation: Operation, action: &Action)
        ensures
            final(self)@ == marked(old(self)@, operation, action@),
    {
        match action {
            Action::MarkBusy => {
                let _ = self.enter(operation);
            },
            Action::MarkIdle => {
                self.exit(operation);
            },
            _ => {},
        }
    }
}

/// Entering and exiting touch the counter of their own operation only.
pub proof fn law_operations_are_independent(g: GuardView, operation: Operation, other: Operation)
    requires
        other != operation,
    ensures
        running(entered(g, operation), other) == running(g, other),
        running(exited(g, operation), other) == running(g, other),
{
}

/// A run that was counted when it went in flight leaves the record as it found it when it
/// ends.
pub proof fn law_enter_then_exit_restores(g: GuardView, operation: Operation)
    requires
        running(g, operation) < capacity(),
    ensures
        busy(entered(g, operation), operation),
        exited(entered(g, operation), operation) == g,
{
}

/// Of two overlapping runs of one operation, the end of the first leaves the operation busy.
pub proof fn law_overlapping_runs_stay_busy(g: GuardView, operation: Operation)
    requires
        running(g, operation) + 2 <= capacity(),
    ensures
        busy(exited(entered(entered(g, operation), operation), operation), operation),
{
}

/// The record after two lists of actions, one after the other.
proof fn lemma_marked_all_concat(
    g: GuardView,
    operation: Operation,
    a: Seq<ActionView>,
    b: Seq<ActionView>,
)
    ensures
        marked_all(g, operation, a + b) == marked_all(marked_all(g, operation, a), operation, b),
    decreases b.len(),
{
    if b.len() == 0 {
        assert(a + b =~= a);
    } else {
        lemma_marked_all_concat(g, operation, a, b.drop_last());
        assert((a + b).drop_last() =~= a + b.drop_last());
    }
}

/// The record after a list of one action.
proof fn lemma_marked_all_one(g: GuardView, operation: Operation, action: ActionView)
    ensures
        marked_all(g, operation, seq![action]) == marked(g, operation, action),
{
    let s = seq![action];
    assert(s.drop_last() =~= Seq::<ActionView>::empty());
    assert(marked_all(g, operation, s.drop_last()) == g);
}

/// The record after a list of actions that hold no mark.
proof fn lemma_marked_all_unmarked(g: GuardView, operation: Operation, actions: Seq<ActionView>)
    requires
        forall|i: int|
            0 <= i < actions.len() ==> !(#[trigger] actions[i] is MarkBusy) && !(actions[i]
                is MarkIdle),
    ensures
        marked_all(g, operation, actions) == g,
    decreases actions.len(),
{
    if actions.len() > 0 {
        lemma_marked_all_unmarked(g, operation, actions.drop_last());
    }
}

/// One step of a run moves the counter of its operation as it moves the run in or out of
/// flight.
proof fn lemma_step_moves_guard(g: GuardView, p: PipelineView, event: EventView)
    requires
        flight(p.stage) <= running(g, p.operation) < capacity() + flight(p.stage),
    ensures
        ({
            let next = transition(p, event);
            marked_all(g, p.operation, next.1) == with_running(
                g,
                p.operation,
                (running(g, p.operation) + flight(next.0.stage) - flight(p.stage)) as nat,
            )
        }),
{
    let next = transition(p, event);
    let operation = p.operation;
    let same = with_running(g, operation, running(g, operation));
    assert(same == g);
    if in_flight(p.stage) && next.0.stage is Finished {
        let idle = ActionView::MarkIdle;
        let before = next.1.drop_last();
        assert(next.1.last() == idle);
        assert(next.1 =~= before + seq![idle]);
        lemma_marked_all_unmarked(g, operation, before);
        lemma_marked_all_concat(g, operation, before, seq![idle]);
        lemma_marked_all_one(g, operation, idle);
    } else if p.stage is Loading && next.0.stage is Sending {
        let busy = ActionView::MarkBusy;
        let send = next.1[1];
        assert(next.1 =~= seq![busy] + seq![send]);
        lemma_marked_all_concat(g, operation, seq![busy], seq![send]);
        lemma_marked_all_one(g, operation, busy);
        lemma_marked_all_one(entered(g, operation), operation, send);
    } else {
        lemma_marked_all_unmarked(g, operation, next.1);
    }
}

/// A record kept in step with a run counts that run exactly while it is in flight: whatever
/// is reported to the run, and on every path to its end, the counter of its operation stands
/// one above where the run found it while the run is in flight, and where the run found it
/// otherwise. The other operation's counter is not touched.
pub proof fn law_guard_follows_run(g: GuardView, p: PipelineView, events: Seq<EventView>)
    requires
        flight(p.stage) <= running(g, p.operation) < capacity() + flight(p.stage),
    ensures
        ({
            let end = run(p, events);
            marked_all(g, p.operation, end.1) == with_running(
                g,
                p.operation,
                (running(g, p.operation) + flight(end.0.stage) - flight(p.stage)) as nat,
            )
        }),
    decreases events.len(),
{
    if events.len() == 0 {
        assert(with_running(g, p.operation, running(g, p.operation)) == g);
    } else {
        let first = transition(p, events[0]);
        let rest = run(first.0, events.drop_first());
        let mid = marked_all(g, p.operation, first.1);
        lemma_step_moves_guard(g, p, events[0]);
        assert(first.0.operation == p.operation);
        law_guard_follows_run(mid, first.0, events.drop_first());
        lemma_marked_all_concat(g, p.operation, first.1, rest.1);
    }
}

} // verus!
