//! What holds of every run: statements over `transition` and `run`, each with its proof.

use crate::error::{description, TransformErrorView};
use crate::pipeline::{
    awaits_report, clipboard_failure_message, conclude, count, failure_message_of,
    failure_title_of, finished, flight, give_up, in_flight, initial, optional, reaches_out, run,
    success_body_of, success_title_of, transition, ActionView, EventView, Feedback, OutcomeView,
    PipelineView, StageView,
};
use crate::provider::{shape_of, successful, text_of, Operation, ProviderResponseView};
use crate::settings::{resolved_key, SettingsView};
use crate::text::blank;
use vstd::prelude::*;

verus! {

/// A run over a first event and the events after it.
proof fn lemma_run_step(p: PipelineView, first: EventView, later: Seq<EventView>)
    ensures
        run(p, seq![first] + later) == (
            run(transition(p, first).0, later).0,
            transition(p, first).1 + run(transition(p, first).0, later).1,
        ),
{
    let events = seq![first] + later;
    assert(events[0] == first);
    assert(events.drop_first() =~= later);
}

/// How often an action stands in two lists, one after the other.
proof fn lemma_count_concat(a: Seq<ActionView>, b: Seq<ActionView>, action: ActionView)
    ensures
        count(a + b, action) == count(a, action) + count(b, action),
    decreases b.len(),
{
    if b.len() == 0 {
        assert(a + b =~= a);
    } else {
        lemma_count_concat(a, b.drop_last(), action);
        assert((a + b).drop_last() =~= a + b.drop_last());
    }
}

/// How often an action stands in a list of one.
proof fn lemma_count_one(only: ActionView, action: ActionView)
    ensures
        count(seq![only], action) == if only == action {
            1nat
        } else {
            0nat
        },
{
    let s = seq![only];
    assert(s.drop_last() =~= Seq::<ActionView>::empty());
    assert(count(s.drop_last(), action) == 0);
}

/// How often an action stands in a list that `optional` made.
proof fn lemma_count_optional(wanted: bool, only: ActionView, action: ActionView)
    ensures
        count(optional(wanted, only), action) == if wanted && only == action {
            1nat
        } else {
            0nat
        },
{
    if wanted {
        lemma_count_one(only, action);
    }
}

/// An ended run stays as it is and asks for nothing, whatever is reported to it.
pub proof fn law_finished_is_final(p: PipelineView, events: Seq<EventView>)
    requires
        p.stage is Finished,
    ensures
        run(p, events) == (p, Seq::<ActionView>::empty()),
    decreases events.len(),
{
    if events.len() > 0 {
        law_finished_is_final(p, events.drop_first());
        assert(Seq::<ActionView>::empty() + Seq::<ActionView>::empty() =~= Seq::<
            ActionView,
        >::empty());
    }
}

/// A blank selection ends the run at once: over the whole run only the capture was asked
/// for, and the run reports no failure.
pub proof fn law_blank_selection_is_silent(
    operation: Operation,
    text: Seq<char>,
    later: Seq<EventView>,
)
    requires
        blank(text),
    ensures
        run(
            initial(operation),
            seq![EventView::Triggered, EventView::Captured { text: text }] + later,
        ) == (finished(operation, OutcomeView::Skipped), seq![ActionView::CaptureSelection]),
{
    let p0 = initial(operation);
    let e0 = EventView::Triggered;
    let e1 = EventView::Captured { text: text };
    let p1 = transition(p0, e0).0;
    let p2 = transition(p1, e1).0;
    assert(seq![e0, e1] + later =~= seq![e0] + (seq![e1] + later));
    lemma_run_step(p0, e0, seq![e1] + later);
    lemma_run_step(p1, e1, later);
    law_finished_is_final(p2, later);
    assert(seq![ActionView::CaptureSelection] + (Seq::<ActionView>::empty() + Seq::<
        ActionView,
    >::empty()) =~= seq![ActionView::CaptureSelection]);
}

/// A selection that cannot be read ends the run at once: over the whole run only the capture
/// and the diagnostic message were asked for.
pub proof fn law_capture_failure_ends_the_run(
    operation: Operation,
    reason: Seq<char>,
    later: Seq<EventView>,
)
    ensures
        run(
            initial(operation),
            seq![EventView::Triggered, EventView::CaptureFailed { reason: reason }] + later,
        ) == (
            finished(
                operation,
                OutcomeView::Failed { error: TransformErrorView::Capture { reason: reason } },
            ),
            seq![
                ActionView::CaptureSelection,
                ActionView::Report {
                    message: description(TransformErrorView::Capture { reason: reason }),
                },
            ],
        ),
{
    let p0 = initial(operation);
    let e0 = EventView::Triggered;
    let e1 = EventView::CaptureFailed { reason: reason };
    let p1 = transition(p0, e0).0;
    let p2 = transition(p1, e1).0;
    let report = ActionView::Report {
        message: description(TransformErrorView::Capture { reason: reason }),
    };
    assert(seq![e0, e1] + later =~= seq![e0] + (seq![e1] + later));
    lemma_run_step(p0, e0, seq![e1] + later);
    lemma_run_step(p1, e1, later);
    law_finished_is_final(p2, later);
    assert(seq![ActionView::CaptureSelection] + (seq![report] + Seq::<ActionView>::empty())
        =~= seq![ActionView::CaptureSelection, report]);
}

/// Without a key for the active provider a run that waits for its settings ends with the
/// missing-credential failure before anything is sent: only the diagnostic message is asked
/// for, then and ever after.
pub proof fn law_missing_key_stops_before_network(
    p: PipelineView,
    settings: SettingsView,
    later: Seq<EventView>,
)
    requires
        p.stage is Loading,
        resolved_key(settings).len() == 0,
    ensures
        run(p, seq![EventView::SettingsLoaded { settings: settings }] + later) == (
            finished(
                p.operation,
                OutcomeView::Failed {
                    error: TransformErrorView::MissingCredential { provider: settings.provider },
                },
            ),
            seq![
                ActionView::Report {
                    message: description(
                        TransformErrorView::MissingCredential { provider: settings.provider },
                    ),
                },
            ],
        ),
{
    let event = EventView::SettingsLoaded { settings: settings };
    let next = transition(p, event);
    lemma_run_step(p, event, later);
    law_finished_is_final(next.0, later);
    assert(next.1 + Seq::<ActionView>::empty() =~= next.1);
}

/// As long as no settings with a key for their active provider are reported, a run that is
/// not in flight never goes in flight and never reaches out: nothing is sent, read or
/// decoded, the clipboard is not written, no sound is played and no notification is shown.
pub proof fn law_no_key_no_outreach(p: PipelineView, events: Seq<EventView>)
    requires
        !in_flight(p.stage),
        forall|i: int|
            0 <= i < events.len() ==> (#[trigger] events[i] matches EventView::SettingsLoaded {
                settings,
            } ==> resolved_key(settings).len() == 0),
    ensures
        !in_flight(run(p, events).0.stage),
        forall|i: int|
            0 <= i < run(p, events).1.len() ==> !reaches_out(#[trigger] run(p, events).1[i]),
    decreases events.len(),
{
    if events.len() > 0 {
        let first = transition(p, events[0]);
        let rest = events.drop_first();
        assert forall|i: int| 0 <= i < rest.len() implies (#[trigger] rest[i]
            matches EventView::SettingsLoaded { settings } ==> resolved_key(settings).len()
            == 0) by {
            assert(rest[i] == events[i + 1]);
        }
        assert(events[0] matches EventView::SettingsLoaded { settings } ==> resolved_key(
            settings,
        ).len() == 0);
        law_no_key_no_outreach(first.0, rest);
    }
}

/// A response with a status outside the success range ends the run with an API failure that
/// carries that status and the response's body; the clipboard is not written.
pub proof fn law_refused_status_surfaces(
    p: PipelineView,
    status: u16,
    body: Seq<char>,
    later: Seq<EventView>,
)
    requires
        p.stage is Sending,
        !successful(status),
    ensures
        ({
            let end = run(
                p,
                seq![
                    EventView::Responded { status: status },
                    EventView::ErrorBody { body: body },
                ] + later,
            );
            &&& end.0 == finished(
                p.operation,
                OutcomeView::Failed {
                    error: TransformErrorView::Api { status: status, body: body },
                },
            )
            &&& forall|i: int| 0 <= i < end.1.len() ==> !(#[trigger] end.1[i] is WriteClipboard)
        }),
{
    let e0 = EventView::Responded { status: status };
    let e1 = EventView::ErrorBody { body: body };
    let events = seq![e0, e1] + later;
    let p1 = transition(p, e0).0;
    let p2 = transition(p1, e1).0;
    assert(events =~= seq![e0] + (seq![e1] + later));
    lemma_run_step(p, e0, seq![e1] + later);
    lemma_run_step(p1, e1, later);
    law_finished_is_final(p2, later);
    law_failure_leaves_clipboard_alone(p, events);
}

/// A successful response that carries text completes the run: the body is decoded, the
/// trimmed text goes to the clipboard, and the run ends with that text whether or not the
/// clipboard took it.
pub proof fn law_success_reaches_clipboard(
    p: PipelineView,
    status: u16,
    response: ProviderResponseView,
    ok: bool,
    later: Seq<EventView>,
)
    requires
        p.stage is Sending,
        successful(status),
        shape_of(response) == p.stage->Sending_provider,
        text_of(response) is Ok,
    ensures
        ({
            let text = text_of(response)->Ok_0;
            let feedback = p.stage->Sending_feedback;
            run(
                p,
                seq![
                    EventView::Responded { status: status },
                    EventView::Parsed { response: response },
                    EventView::ClipboardWritten { ok: ok },
                ] + later,
            ) == (
                finished(p.operation, OutcomeView::Completed { text: text }),
                seq![
                    ActionView::ParseBody { provider: shape_of(response) },
                    ActionView::WriteClipboard { text: text },
                ] + conclude(p.operation, text, feedback, ok).1,
            )
        }),
{
    let text = text_of(response)->Ok_0;
    let feedback = p.stage->Sending_feedback;
    let e0 = EventView::Responded { status: status };
    let e1 = EventView::Parsed { response: response };
    let e2 = EventView::ClipboardWritten { ok: ok };
    let p1 = transition(p, e0).0;
    let p2 = transition(p1, e1).0;
    let p3 = transition(p2, e2).0;
    let last = conclude(p.operation, text, feedback, ok).1;
    assert(seq![e0, e1, e2] + later =~= seq![e0] + (seq![e1] + (seq![e2] + later)));
    lemma_run_step(p, e0, seq![e1] + (seq![e2] + later));
    lemma_run_step(p1, e1, seq![e2] + later);
    lemma_run_step(p2, e2, later);
    law_finished_is_final(p3, later);
    assert(seq![ActionView::ParseBody { provider: shape_of(response) }] + (seq![
        ActionView::WriteClipboard { text: text },
    ] + (last + Seq::<ActionView>::empty())) =~= seq![
        ActionView::ParseBody { provider: shape_of(response) },
        ActionView::WriteClipboard { text: text },
    ] + last);
}

/// Once a result is on its way to the clipboard the run can only complete.
proof fn lemma_delivering_completes(p: PipelineView, events: Seq<EventView>)
    requires
        p.stage is Delivering || (p.stage matches StageView::Finished { outcome }
            && outcome is Completed),
    ensures
        ({
            let end = run(p, events).0.stage;
            end is Delivering || (end matches StageView::Finished { outcome }
                && outcome is Completed)
        }),
    decreases events.len(),
{
    if events.len() > 0 {
        lemma_delivering_completes(transition(p, events[0]).0, events.drop_first());
    }
}

/// A run that ends in failure, or skipped, or that is still on its way to a result, has not
/// asked for a clipboard write: the clipboard is written only on the way to completion.
pub proof fn law_failure_leaves_clipboard_alone(p: PipelineView, events: Seq<EventView>)
    requires
        !(p.stage is Delivering),
        !(p.stage matches StageView::Finished { outcome } && outcome is Completed),
    ensures
        ({
            let end = run(p, events);
            let completing = end.0.stage is Delivering || (end.0.stage matches StageView::Finished {
                outcome,
            } && outcome is Completed);
            !completing ==> forall|i: int|
                0 <= i < end.1.len() ==> !(#[trigger] end.1[i] is WriteClipboard)
        }),
    decreases events.len(),
{
    if events.len() > 0 {
        let first = transition(p, events[0]);
        let rest = run(first.0, events.drop_first());
        if first.0.stage is Delivering {
            lemma_delivering_completes(first.0, events.drop_first());
        } else {
            law_failure_leaves_clipboard_alone(first.0, events.drop_first());
            assert forall|i: int| 0 <= i < first.1.len() implies !(#[trigger] first.1[i]
                is WriteClipboard) by {}
        }
    }
}

/// One step keeps the books: what it marks busy and idle matches how it changes the stage.
proof fn lemma_step_keeps_balance(p: PipelineView, event: EventView)
    ensures
        count(transition(p, event).1, ActionView::MarkBusy) + flight(p.stage) == count(
            transition(p, event).1,
            ActionView::MarkIdle,
        ) + flight(transition(p, event).0.stage),
{
    let next = transition(p, event);
    let busy = ActionView::MarkBusy;
    let idle = ActionView::MarkIdle;
    assert(count(Seq::<ActionView>::empty(), busy) == 0);
    assert(count(Seq::<ActionView>::empty(), idle) == 0);
    if next.1.len() == 1 {
        assert(next.1 =~= seq![next.1[0]]);
        lemma_count_one(next.1[0], busy);
        lemma_count_one(next.1[0], idle);
    } else if p.stage is Loading && next.0.stage is Sending {
        let send = next.1[1];
        assert(next.1 =~= seq![busy] + seq![send]);
        lemma_count_concat(seq![busy], seq![send], busy);
        lemma_count_concat(seq![busy], seq![send], idle);
        lemma_count_one(busy, busy);
        lemma_count_one(busy, idle);
        lemma_count_one(send, busy);
        lemma_count_one(send, idle);
    } else if p.stage is Delivering && next.0.stage is Finished {
        let text = p.stage->Delivering_text;
        let feedback = p.stage->Delivering_feedback;
        let ok = event->ClipboardWritten_ok;
        let report = ActionView::Report { message: clipboard_failure_message() };
        let notify = ActionView::Notify {
            title: success_title_of(p.operation),
            body: success_body_of(p.operation, text),
        };
        let a = optional(!ok, report);
        let b = optional(feedback.sound, ActionView::PlaySound);
        let c = optional(feedback.notifications, notify);
        lemma_count_optional(!ok, report, busy);
        lemma_count_optional(!ok, report, idle);
        lemma_count_optional(feedback.sound, ActionView::PlaySound, busy);
        lemma_count_optional(feedback.sound, ActionView::PlaySound, idle);
        lemma_count_optional(feedback.notifications, notify, busy);
        lemma_count_optional(feedback.notifications, notify, idle);
        lemma_count_one(idle, busy);
        lemma_count_one(idle, idle);
        lemma_count_concat(a, b, busy);
        lemma_count_concat(a, b, idle);
        lemma_count_concat(a + b, c, busy);
        lemma_count_concat(a + b, c, idle);
        lemma_count_concat(a + b + c, seq![idle], busy);
        lemma_count_concat(a + b + c, seq![idle], idle);
    } else if in_flight(p.stage) && next.0.stage is Finished {
        let error = next.0.stage->Finished_outcome->Failed_error;
        let feedback = match p.stage {
            StageView::Sending { feedback, .. } => feedback,
            StageView::ReadingError { feedback, .. } => feedback,
            StageView::Parsing { feedback, .. } => feedback,
            _ => arbitrary(),
        };
        assert(next == give_up(p.operation, feedback, error));
        let report = ActionView::Report { message: failure_message_of(p.operation, error) };
        let notify = ActionView::Notify {
            title: failure_title_of(p.operation),
            body: failure_message_of(p.operation, error),
        };
        let b = optional(feedback.notifications, notify);
        lemma_count_one(report, busy);
        lemma_count_one(report, idle);
        lemma_count_optional(feedback.notifications, notify, busy);
        lemma_count_optional(feedback.notifications, notify, idle);
        lemma_count_one(idle, busy);
        lemma_count_one(idle, idle);
        lemma_count_concat(seq![report], b, busy);
        lemma_count_concat(seq![report], b, idle);
        lemma_count_concat(seq![report] + b, seq![idle], busy);
        lemma_count_concat(seq![report] + b, seq![idle], idle);
    }
}

/// Over any run the busy and idle marks stay paired: a run marks itself busy once when it
/// goes in flight and idle once when it ends, on the path of success and on every path of
/// failure.
pub proof fn law_busy_marks_are_paired(p: PipelineView, events: Seq<EventView>)
    ensures
        count(run(p, events).1, ActionView::MarkBusy) + flight(p.stage) == count(
            run(p, events).1,
            ActionView::MarkIdle,
        ) + flight(run(p, events).0.stage),
    decreases events.len(),
{
    if events.len() > 0 {
        let first = transition(p, events[0]);
        let rest = run(first.0, events.drop_first());
        lemma_step_keeps_balance(p, events[0]);
        law_busy_marks_are_paired(first.0, events.drop_first());
        lemma_count_concat(first.1, rest.1, ActionView::MarkBusy);
        lemma_count_concat(first.1, rest.1, ActionView::MarkIdle);
    }
}

/// A run that gives up asks for nothing to be reported back.
proof fn lemma_give_up_awaits_nothing(
    operation: Operation,
    feedback: Feedback,
    error: TransformErrorView,
)
    ensures
        forall|i: int|
            0 <= i < give_up(operation, feedback, error).1.len() ==> !awaits_report(
                #[trigger] give_up(operation, feedback, error).1[i],
            ),
{
    let actions = give_up(operation, feedback, error).1;
    let report = ActionView::Report { message: failure_message_of(operation, error) };
    let notify = ActionView::Notify {
        title: failure_title_of(operation),
        body: failure_message_of(operation, error),
    };
    if feedback.notifications {
        assert(actions =~= seq![report, notify, ActionView::MarkIdle]);
    } else {
        assert(actions =~= seq![report, ActionView::MarkIdle]);
    }
}

/// A run that completes asks for nothing to be reported back.
proof fn lemma_conclude_awaits_nothing(
    operation: Operation,
    text: Seq<char>,
    feedback: Feedback,
    ok: bool,
)
    ensures
        forall|i: int|
            0 <= i < conclude(operation, text, feedback, ok).1.len() ==> !awaits_report(
                #[trigger] conclude(operation, text, feedback, ok).1[i],
            ),
{
    let actions = conclude(operation, text, feedback, ok).1;
    let a = optional(!ok, ActionView::Report { message: clipboard_failure_message() });
    let b = optional(feedback.sound, ActionView::PlaySound);
    let c = optional(
        feedback.notifications,
        ActionView::Notify {
            title: success_title_of(operation),
            body: success_body_of(operation, text),
        },
    );
    let d = seq![ActionView::MarkIdle];
    assert(actions == a + b + c + d);
    assert forall|i: int| 0 <= i < actions.len() implies !awaits_report(
        #[trigger] actions[i],
    ) by {
        if i < a.len() {
            assert(actions[i] == a[i]);
        } else if i < a.len() + b.len() {
            assert(actions[i] == b[i - a.len()]);
        } else if i < a.len() + b.len() + c.len() {
            assert(actions[i] == c[i - a.len() - b.len()]);
        } else {
            assert(actions[i] == d[i - a.len() - b.len() - c.len()]);
        }
    }
}

/// Every step leaves the caller with at most one thing to report back: a step that ends the
/// run, or that changes nothing, asks for nothing of the kind; every other step asks for
/// exactly one, as its last action.
pub proof fn law_step_awaits_one_report(p: PipelineView, event: EventView)
    ensures
        ({
            let next = transition(p, event);
            let waits = !(next.0.stage is Finished) && next.1.len() > 0;
            &&& next.1.len() == 0 ==> next.0 == p || next.0.stage is Finished
            &&& forall|i: int|
                0 <= i < next.1.len() ==> (awaits_report(#[trigger] next.1[i]) <==> waits && i
                    == next.1.len() - 1)
        }),
{
    let next = transition(p, event);
    match p.stage {
        StageView::Sending { provider, feedback } => {
            if event is SendFailed {
                lemma_give_up_awaits_nothing(
                    p.operation,
                    feedback,
                    TransformErrorView::Transport { reason: event->SendFailed_reason },
                );
            }
        },
        StageView::ReadingError { status, feedback } => {
            if event is ErrorBody {
                lemma_give_up_awaits_nothing(
                    p.operation,
                    feedback,
                    TransformErrorView::Api { status: status, body: event->ErrorBody_body },
                );
            }
        },
        StageView::Parsing { provider, feedback } => {
            if event is ParseFailed {
                lemma_give_up_awaits_nothing(
                    p.operation,
                    feedback,
                    TransformErrorView::MalformedResponse { reason: event->ParseFailed_reason },
                );
            } else if event is Parsed {
                let response = event->Parsed_response;
                if shape_of(response) == provider && text_of(response) is Err {
                    lemma_give_up_awaits_nothing(p.operation, feedback, text_of(response)->Err_0);
                }
            }
        },
        StageView::Delivering { text, feedback } => {
            if event is ClipboardWritten {
                lemma_conclude_awaits_nothing(
                    p.operation,
                    text,
                    feedback,
                    event->ClipboardWritten_ok,
                );
            }
        },
        _ => {},
    }
}

} // verus!
