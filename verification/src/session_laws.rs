//! What holds of every run of a session, whatever events the driver
//! reports and in whatever order.

use crate::session::{next, ActionKind, ClientSession, Pump, SessionAction, SessionEvent, Stage};
use vstd::prelude::*;

verus! {

/// The session after `events`, reported in order.
pub open spec fn run(session: ClientSession, events: Seq<SessionEvent>) -> ClientSession
    decreases events.len(),
{
    if events.len() == 0 {
        session
    } else {
        next(run(session, events.drop_last()), events.last()).0
    }
}

/// The actions the engine answered `events` with, one per event.
pub open spec fn trace(session: ClientSession, events: Seq<SessionEvent>) -> Seq<SessionAction>
    decreases events.len(),
{
    if events.len() == 0 {
        Seq::empty()
    } else {
        trace(session, events.drop_last()).push(
            next(run(session, events.drop_last()), events.last()).1,
        )
    }
}

/// How many of `actions` are of `kind`.
pub open spec fn count(actions: Seq<SessionAction>, kind: ActionKind) -> nat
    decreases actions.len(),
{
    if actions.len() == 0 {
        0
    } else {
        count(actions.drop_last(), kind) + if actions.last().spec_kind() == kind {
            1nat
        } else {
            0nat
        }
    }
}

/// What a stage says about the actions that led to it: how often each
/// action was asked for. Up to the stage it has reached, a session has
/// asked for each step exactly once; what lies ahead it has not asked for.
pub open spec fn accounted(stage: Stage, actions: Seq<SessionAction>) -> bool {
    let verified = count(actions, ActionKind::Authenticate);
    let refused = count(actions, ActionKind::Refuse);
    let connects = count(actions, ActionKind::Connect);
    let resolves = count(actions, ActionKind::ResolveSubscriptions);
    let starts = count(actions, ActionKind::StartPumps);
    let cancels = count(actions, ActionKind::CancelPump);
    let disconnects = count(actions, ActionKind::Disconnect);
    match stage {
        Stage::Connecting => verified == 0 && refused == 0 && connects == 0 && resolves == 0
            && starts == 0 && cancels == 0 && disconnects == 0,
        Stage::Authenticating => verified == 1 && refused == 0 && connects == 0 && resolves == 0
            && starts == 0 && cancels == 0 && disconnects == 0,
        Stage::Greeting { .. } => verified == 1 && refused == 0 && connects == 1 && resolves == 0
            && starts == 0 && cancels == 0 && disconnects == 0,
        Stage::Resolving { .. } => verified == 1 && refused == 0 && connects == 1 && resolves == 1
            && starts == 0 && cancels == 0 && disconnects == 0,
        Stage::Active { .. } => verified == 1 && refused == 0 && connects == 1 && resolves == 1
            && starts == 1 && cancels == 0 && disconnects == 0,
        Stage::Draining { .. } => verified == 1 && refused == 0 && connects == 1 && resolves == 1
            && starts == 1 && cancels == 1 && disconnects == 0,
        Stage::Closed { user_id: None } => verified <= 1 && refused == 1 && connects == 0
            && resolves == 0 && starts == 0 && cancels == 0 && disconnects == 0,
        Stage::Closed { user_id: Some(_) } => verified == 1 && refused == 0 && connects == 1
            && disconnects == 1 && cancels == starts && starts <= resolves && resolves <= 1,
    }
}

proof fn lemma_count_push(actions: Seq<SessionAction>, action: SessionAction, kind: ActionKind)
    ensures
        count(actions.push(action), kind) == count(actions, kind) + if action.spec_kind() == kind {
            1nat
        } else {
            0nat
        },
{
    assert(actions.push(action).drop_last() =~= actions);
    assert(actions.push(action).last() == action);
}

proof fn lemma_count_concat(left: Seq<SessionAction>, right: Seq<SessionAction>, kind: ActionKind)
    ensures
        count(left + right, kind) == count(left, kind) + count(right, kind),
    decreases right.len(),
{
    if right.len() == 0 {
        assert(left + right =~= left);
    } else {
        lemma_count_concat(left, right.drop_last(), kind);
        assert((left + right).drop_last() =~= left + right.drop_last());
        assert((left + right).last() == right.last());
    }
}

proof fn lemma_step_accounted(session: ClientSession, actions: Seq<SessionAction>, event: SessionEvent)
    requires
        accounted(session.stage, actions),
    ensures
        accounted(next(session, event).0.stage, actions.push(next(session, event).1)),
{
    let action = next(session, event).1;
    lemma_count_push(actions, action, ActionKind::Authenticate);
    lemma_count_push(actions, action, ActionKind::Refuse);
    lemma_count_push(actions, action, ActionKind::Connect);
    lemma_count_push(actions, action, ActionKind::ResolveSubscriptions);
    lemma_count_push(actions, action, ActionKind::StartPumps);
    lemma_count_push(actions, action, ActionKind::CancelPump);
    lemma_count_push(actions, action, ActionKind::Disconnect);
}

proof fn lemma_run_accounted(client_id: u128, events: Seq<SessionEvent>)
    ensures
        accounted(
            run(ClientSession::initial(client_id), events).stage,
            trace(ClientSession::initial(client_id), events),
        ),
    decreases events.len(),
{
    let start = ClientSession::initial(client_id);
    if events.len() > 0 {
        lemma_run_accounted(client_id, events.drop_last());
        lemma_step_accounted(
            run(start, events.drop_last()),
            trace(start, events.drop_last()),
            events.last(),
        );
    }
}

proof fn lemma_split(session: ClientSession, events: Seq<SessionEvent>, at: int)
    requires
        0 <= at <= events.len(),
    ensures
        run(session, events) == run(run(session, events.take(at)), events.skip(at)),
        trace(session, events) == trace(session, events.take(at)) + trace(
            run(session, events.take(at)),
            events.skip(at),
        ),
    decreases events.len(),
{
    let head = events.take(at);
    let tail = events.skip(at);
    if at == events.len() {
        assert(head =~= events);
        assert(tail.len() == 0);
        assert(trace(session, events) + Seq::<SessionAction>::empty() =~= trace(session, events));
    } else {
        let shorter = events.drop_last();
        lemma_split(session, shorter, at);
        assert(shorter.take(at) =~= head);
        assert(shorter.skip(at) =~= tail.drop_last());
        assert(tail.last() == events.last());
        let middle = run(session, head);
        assert(run(session, shorter) == run(middle, tail.drop_last()));
        assert(trace(session, events) =~= trace(session, head) + trace(middle, tail));
    }
}

/// A run answers each event with one action, and the action at a position
/// is the one the transition relation gives for the session as it stood
/// before that event.
pub proof fn law_trace_follows_steps(session: ClientSession, events: Seq<SessionEvent>, at: int)
    requires
        0 <= at < events.len(),
    ensures
        trace(session, events).len() == events.len(),
        trace(session, events)[at] == next(run(session, events.take(at)), events[at]).1,
        run(session, events.take(at + 1)) == next(run(session, events.take(at)), events[at]).0,
    decreases events.len(),
{
    let shorter = events.drop_last();
    lemma_trace_len(session, events);
    lemma_trace_len(session, shorter);
    assert(events.take(at + 1).drop_last() =~= events.take(at));
    assert(events.take(at + 1).last() == events[at]);
    if at == events.len() - 1 {
        assert(events.take(at) =~= shorter);
    } else {
        law_trace_follows_steps(session, shorter, at);
        assert(shorter.take(at) =~= events.take(at));
    }
}

proof fn lemma_trace_len(session: ClientSession, events: Seq<SessionEvent>)
    ensures
        trace(session, events).len() == events.len(),
    decreases events.len(),
{
    if events.len() > 0 {
        lemma_trace_len(session, events.drop_last());
    }
}

/// `Closed` is terminal: a closed session stays as it is, and every later
/// event is answered with `Ignore`.
pub proof fn law_closed_is_terminal(session: ClientSession, events: Seq<SessionEvent>)
    requires
        session.stage is Closed,
    ensures
        run(session, events) == session,
        count(trace(session, events), ActionKind::Ignore) == events.len(),
        forall|kind: ActionKind|
            kind != ActionKind::Ignore ==> #[trigger] count(trace(session, events), kind) == 0,
    decreases events.len(),
{
    if events.len() > 0 {
        law_closed_is_terminal(session, events.drop_last());
        let before = trace(session, events.drop_last());
        assert forall|kind: ActionKind| true implies #[trigger] count(
            trace(session, events),
            kind,
        ) == count(before, kind) + if kind == ActionKind::Ignore {
            1nat
        } else {
            0nat
        } by {
            lemma_count_push(before, SessionAction::Ignore, kind);
        }
    }
}

/// A session serves one user: once a user is authenticated, no event
/// changes who it is, and no event ever changes the connection identifier.
pub proof fn law_one_user_per_session(session: ClientSession, events: Seq<SessionEvent>)
    ensures
        run(session, events).client_id == session.client_id,
        session.stage.user() is Some ==> run(session, events).stage.user() == session.stage.user(),
    decreases events.len(),
{
    if events.len() > 0 {
        law_one_user_per_session(session, events.drop_last());
    }
}

/// The rank of a stage in the order in which a session passes through
/// its stages.
pub open spec fn rank(stage: Stage) -> nat {
    match stage {
        Stage::Connecting => 0,
        Stage::Authenticating => 1,
        Stage::Greeting { .. } => 2,
        Stage::Resolving { .. } => 3,
        Stage::Active { .. } => 4,
        Stage::Draining { .. } => 5,
        Stage::Closed { .. } => 6,
    }
}

/// A session only moves forward: no event takes it back to a stage it has
/// left, and an event that is answered with anything but `Ignore` takes it
/// to a later stage.
pub proof fn law_stages_only_advance(session: ClientSession, events: Seq<SessionEvent>)
    ensures
        rank(session.stage) <= rank(run(session, events).stage),
        events.len() > 0 && !(trace(session, events).last() is Ignore) ==> rank(
            run(session, events.drop_last()).stage,
        ) < rank(run(session, events).stage),
    decreases events.len(),
{
    if events.len() > 0 {
        law_stages_only_advance(session, events.drop_last());
    }
}

/// In every run of a fresh session each action but `Ignore` is asked for at
/// most once. The connect hook is called only for a user that
/// authenticated, the pumps are started only after the subscriptions were
/// resolved, and the disconnect hook is never called more often than the
/// connect hook. Once the session is closed the two hooks have been called
/// equally often, and a session that was refused has called neither.
pub proof fn law_hooks_are_paired(client_id: u128, events: Seq<SessionEvent>)
    ensures
        ({
            let start = ClientSession::initial(client_id);
            let actions = trace(start, events);
            let end = run(start, events);
            &&& forall|kind: ActionKind|
                kind != ActionKind::Ignore ==> #[trigger] count(actions, kind) <= 1
            &&& count(actions, ActionKind::StartPumps) <= count(
                actions,
                ActionKind::ResolveSubscriptions,
            )
            &&& count(actions, ActionKind::ResolveSubscriptions) <= count(
                actions,
                ActionKind::Connect,
            )
            &&& count(actions, ActionKind::CancelPump) <= count(actions, ActionKind::StartPumps)
            &&& count(actions, ActionKind::Disconnect) <= count(actions, ActionKind::Connect)
            &&& (count(actions, ActionKind::Connect) == 1 <==> end.stage.user() is Some)
            &&& (count(actions, ActionKind::Refuse) == 1 ==> count(actions, ActionKind::Connect)
                == 0)
            &&& (end.stage is Closed ==> count(actions, ActionKind::Disconnect) == count(
                actions,
                ActionKind::Connect,
            ))
        }),
{
    lemma_run_accounted(client_id, events);
    let actions = trace(ClientSession::initial(client_id), events);
    assert forall|kind: ActionKind| kind != ActionKind::Ignore implies #[trigger] count(
        actions,
        kind,
    ) <= 1 by {
        match kind {
            ActionKind::Authenticate => {},
            ActionKind::Refuse => {},
            ActionKind::Connect => {},
            ActionKind::ResolveSubscriptions => {},
            ActionKind::StartPumps => {},
            ActionKind::CancelPump => {},
            ActionKind::Disconnect => {},
            ActionKind::Ignore => {},
        }
    }
}

proof fn lemma_closing_step(
    client_id: u128,
    events: Seq<SessionEvent>,
    at: int,
    kind: ActionKind,
)
    requires
        0 <= at < events.len(),
        next(run(ClientSession::initial(client_id), events.take(at)), events[at]).0.stage is Closed,
        kind != ActionKind::Ignore,
    ensures
        count(trace(ClientSession::initial(client_id), events), kind) == count(
            trace(ClientSession::initial(client_id), events.take(at)),
            kind,
        ) + if next(
            run(ClientSession::initial(client_id), events.take(at)),
            events[at],
        ).1.spec_kind() == kind {
            1nat
        } else {
            0nat
        },
{
    let start = ClientSession::initial(client_id);
    let before = run(start, events.take(at));
    let step = next(before, events[at]);
    law_trace_follows_steps(start, events, at);
    lemma_split(start, events, at + 1);
    let upto = events.take(at + 1);
    assert(upto.drop_last() =~= events.take(at));
    assert(upto.last() == events[at]);
    assert(trace(start, upto) == trace(start, events.take(at)).push(step.1));
    lemma_count_push(trace(start, events.take(at)), step.1, kind);
    law_closed_is_terminal(step.0, events.skip(at + 1));
    lemma_count_concat(trace(start, upto), trace(step.0, events.skip(at + 1)), kind);
}

/// A session whose upgrade carried no token is refused: in the whole run
/// neither hook is called, nothing is sent for verification and no pump is
/// started.
pub proof fn law_missing_token_calls_no_hook(client_id: u128, events: Seq<SessionEvent>, at: int)
    requires
        0 <= at < events.len(),
        run(ClientSession::initial(client_id), events.take(at)).stage is Connecting,
        events[at] == (SessionEvent::Upgraded { token: None }),
    ensures
        trace(ClientSession::initial(client_id), events)[at] == SessionAction::Refuse,
        count(trace(ClientSession::initial(client_id), events), ActionKind::Authenticate) == 0,
        count(trace(ClientSession::initial(client_id), events), ActionKind::Connect) == 0,
        count(trace(ClientSession::initial(client_id), events), ActionKind::Disconnect) == 0,
        count(trace(ClientSession::initial(client_id), events), ActionKind::StartPumps) == 0,
{
    let start = ClientSession::initial(client_id);
    lemma_run_accounted(client_id, events.take(at));
    law_trace_follows_steps(start, events, at);
    lemma_closing_step(client_id, events, at, ActionKind::Authenticate);
    lemma_closing_step(client_id, events, at, ActionKind::Connect);
    lemma_closing_step(client_id, events, at, ActionKind::Disconnect);
    lemma_closing_step(client_id, events, at, ActionKind::StartPumps);
}

/// A session whose authentication fails is refused: in the whole run
/// neither the connect hook nor the disconnect hook is called, and no pump
/// is started.
pub proof fn law_failed_authentication_calls_no_hook(
    client_id: u128,
    events: Seq<SessionEvent>,
    at: int,
)
    requires
        0 <= at < events.len(),
        run(ClientSession::initial(client_id), events.take(at)).stage is Authenticating,
        events[at] == (SessionEvent::Authenticated { user_id: None }),
    ensures
        trace(ClientSession::initial(client_id), events)[at] == SessionAction::Refuse,
        count(trace(ClientSession::initial(client_id), events), ActionKind::Connect) == 0,
        count(trace(ClientSession::initial(client_id), events), ActionKind::Disconnect) == 0,
        count(trace(ClientSession::initial(client_id), events), ActionKind::StartPumps) == 0,
{
    let start = ClientSession::initial(client_id);
    lemma_run_accounted(client_id, events.take(at));
    law_trace_follows_steps(start, events, at);
    lemma_closing_step(client_id, events, at, ActionKind::Connect);
    lemma_closing_step(client_id, events, at, ActionKind::Disconnect);
    lemma_closing_step(client_id, events, at, ActionKind::StartPumps);
}

/// A session whose connect hook refuses is closed at once: the connect
/// hook has been called once, the disconnect hook is called once, and no
/// pump is ever started.
pub proof fn law_refused_connect_disconnects_once(
    client_id: u128,
    events: Seq<SessionEvent>,
    at: int,
)
    requires
        0 <= at < events.len(),
        run(ClientSession::initial(client_id), events.take(at)).stage is Greeting,
        events[at] == (SessionEvent::Greeted { accepted: false }),
    ensures
        trace(ClientSession::initial(client_id), events)[at] == (SessionAction::Disconnect {
            client_id,
        }),
        count(trace(ClientSession::initial(client_id), events), ActionKind::Connect) == 1,
        count(trace(ClientSession::initial(client_id), events), ActionKind::Disconnect) == 1,
        count(trace(ClientSession::initial(client_id), events), ActionKind::StartPumps) == 0,
{
    let start = ClientSession::initial(client_id);
    lemma_run_accounted(client_id, events.take(at));
    law_one_user_per_session(start, events.take(at));
    law_trace_follows_steps(start, events, at);
    lemma_closing_step(client_id, events, at, ActionKind::Connect);
    lemma_closing_step(client_id, events, at, ActionKind::Disconnect);
    lemma_closing_step(client_id, events, at, ActionKind::StartPumps);
}

/// A session that authenticated and passed the connect hook, but whose
/// subscriptions could not be resolved, is closed at once: the connect hook
/// has been called once, no pump is ever started, and the disconnect hook
/// is called once.
pub proof fn law_failed_resolution_disconnects_once(
    client_id: u128,
    events: Seq<SessionEvent>,
    at: int,
)
    requires
        0 <= at < events.len(),
        run(ClientSession::initial(client_id), events.take(at)).stage is Resolving,
        events[at] == (SessionEvent::Resolved { keys: None }),
    ensures
        trace(ClientSession::initial(client_id), events)[at] == (SessionAction::Disconnect {
            client_id,
        }),
        count(trace(ClientSession::initial(client_id), events), ActionKind::Connect) == 1,
        count(trace(ClientSession::initial(client_id), events), ActionKind::Disconnect) == 1,
        count(trace(ClientSession::initial(client_id), events), ActionKind::StartPumps) == 0,
{
    let start = ClientSession::initial(client_id);
    lemma_run_accounted(client_id, events.take(at));
    law_one_user_per_session(start, events.take(at));
    law_trace_follows_steps(start, events, at);
    lemma_closing_step(client_id, events, at, ActionKind::Connect);
    lemma_closing_step(client_id, events, at, ActionKind::Disconnect);
    lemma_closing_step(client_id, events, at, ActionKind::StartPumps);
}

/// When either pump of an active session ends, the very next action
/// cancels the other pump and the session is draining; when that other
/// pump has ended too, the very next action is the disconnect hook and the
/// session is closed. Neither pump outlives the other by more than these
/// two steps.
pub proof fn law_pump_end_stops_the_other(session: ClientSession, ended: Pump)
    requires
        session.stage is Active,
    ensures
        ({
            let draining = next(session, SessionEvent::PumpEnded { pump: ended });
            let closed = next(draining.0, SessionEvent::PumpEnded { pump: ended.other() });
            &&& draining.1 == (SessionAction::CancelPump { pump: ended.other() })
            &&& draining.0.stage == (Stage::Draining {
                user_id: session.stage->Active_user_id,
                running: ended.other(),
            })
            &&& closed.1 == (SessionAction::Disconnect { client_id: session.client_id })
            &&& closed.0.stage == (Stage::Closed { user_id: session.stage.user() })
        }),
{
}

/// Only the end of a pump takes an active session out of `Active`: every
/// other event leaves it as it is.
pub proof fn law_active_until_a_pump_ends(session: ClientSession, event: SessionEvent)
    requires
        session.stage is Active,
        !(event is PumpEnded),
    ensures
        next(session, event).0 == session,
        next(session, event).1 == SessionAction::Ignore,
{
}

} // verus!
