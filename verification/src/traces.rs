//! What holds of every run of the supervisor.
//!
//! A run is the supervisor's step applied to a sequence of events, one
//! after the other. The statements here hold whatever the events are and
//! however output lines and stray events are mixed among the answers.

use crate::hostname::{http_url, LOCAL_HOSTNAME};
use crate::log_ring::{
    append_each,
    keep_latest,
    lemma_append_each_keeps_latest,
    render_all,
    LogEntryView,
};
use crate::readiness::{ReadinessView, ReadyView, ServerErrorView};
use crate::supervisor::{
    initial_state,
    next,
    timed_out,
    ActionView,
    EventView,
    Phase,
    SupervisorView,
};
use vstd::prelude::*;

verus! {

/// The state after the events of a run, in order.
pub open spec fn run(
    s: SupervisorView,
    events: Seq<EventView>,
    credential: Seq<char>,
) -> SupervisorView
    decreases events.len(),
{
    if events.len() == 0 {
        s
    } else {
        next(run(s, events.drop_last(), credential), events.last(), credential).0
    }
}

/// What the supervisor asks for in answer to event `k` of a run.
pub open spec fn action_at(
    s: SupervisorView,
    events: Seq<EventView>,
    credential: Seq<char>,
    k: int,
) -> ActionView {
    next(run(s, events.take(k), credential), events[k], credential).1
}

/// The output lines among the events, in order.
pub open spec fn logged(events: Seq<EventView>) -> Seq<LogEntryView>
    decreases events.len(),
{
    if events.len() == 0 {
        Seq::empty()
    } else {
        match events.last() {
            EventView::Output(stream, text) => logged(events.drop_last()).push(
                LogEntryView { stream, text },
            ),
            _ => logged(events.drop_last()),
        }
    }
}

/// Whether the supervisor polls a spawned server in this phase.
pub open spec fn is_polling(phase: Phase) -> bool {
    phase == Phase::CheckingClock || phase == Phase::Sleeping || phase == Phase::ProbingSpawned
}

/// Whether the local probe lies behind the supervisor in this phase.
pub open spec fn is_past_local_probe(phase: Phase) -> bool {
    is_polling(phase) || phase == Phase::Spawning || phase == Phase::Registering || phase
        == Phase::Settled
}

/// Whether an event leaves a polling supervisor polling: it is no healthy
/// answer and no reading of the clock beyond the timeout.
pub open spec fn keeps_waiting(event: EventView) -> bool {
    match event {
        EventView::Health(healthy) => !healthy,
        EventView::Clock(elapsed) => !timed_out(elapsed),
        _ => true,
    }
}

/// Whether every event of the sequence leaves a polling supervisor
/// polling.
pub open spec fn all_keep_waiting(events: Seq<EventView>) -> bool {
    forall|i: int| 0 <= i < events.len() ==> keeps_waiting(#[trigger] events[i])
}

/// The events from the failed local probe to the first reading of the
/// clock: the probe's answer and the report of the spawn.
pub open spec fn spawn_events(pid: u32) -> Seq<EventView> {
    seq![EventView::Health(false), EventView::Spawned(pid)]
}

/// What holds of every state that a run from the initial state reaches:
/// a tracked child is the spawned server and is tracked only once the
/// result is published; a server is spawned and a credential generated
/// only after the local probe; and in the last phase the readiness cell is
/// settled.
pub open spec fn consistent(s: SupervisorView) -> bool {
    &&& s.child is Some ==> s.child == s.spawned && s.phase == Phase::Settled
    &&& s.spawned is Some ==> is_past_local_probe(s.phase) && s.phase != Phase::Spawning
    &&& s.password is Some ==> is_past_local_probe(s.phase)
    &&& s.phase == Phase::Settled ==> !(s.status is Pending)
    &&& s.logs.len() <= s.log_bound
}

/// A run in two parts gives what the run in one gives.
pub proof fn lemma_run_split(
    s: SupervisorView,
    first: Seq<EventView>,
    second: Seq<EventView>,
    credential: Seq<char>,
)
    ensures
        run(s, first + second, credential) == run(run(s, first, credential), second, credential),
    decreases second.len(),
{
    if second.len() == 0 {
        assert(first + second =~= first);
    } else {
        lemma_run_split(s, first, second.drop_last(), credential);
        assert((first + second).drop_last() =~= first + second.drop_last());
        assert((first + second).last() == second.last());
    }
}

/// A run of one event is one step.
pub proof fn lemma_run_one(s: SupervisorView, event: EventView, credential: Seq<char>)
    ensures
        run(s, seq![event], credential) == next(s, event, credential).0,
{
    let events = seq![event];
    assert(events.drop_last() =~= Seq::<EventView>::empty());
    assert(run(s, events.drop_last(), credential) == s);
}

/// One step keeps a consistent state consistent.
pub proof fn lemma_step_keeps_consistent(
    s: SupervisorView,
    event: EventView,
    credential: Seq<char>,
)
    requires
        consistent(s),
    ensures
        consistent(next(s, event, credential).0),
{
}

/// Every state that a run from the initial state reaches is consistent.
pub proof fn lemma_run_is_consistent(
    s: SupervisorView,
    events: Seq<EventView>,
    credential: Seq<char>,
)
    requires
        consistent(s),
    ensures
        consistent(run(s, events, credential)),
    decreases events.len(),
{
    if events.len() > 0 {
        lemma_run_is_consistent(s, events.drop_last(), credential);
        lemma_step_keeps_consistent(
            run(s, events.drop_last(), credential),
            events.last(),
            credential,
        );
    }
}

/// The log ring of a run holds what appending the run's output lines one
/// by one gives; nothing else touches it.
pub proof fn lemma_run_logs(s: SupervisorView, events: Seq<EventView>, credential: Seq<char>)
    ensures
        run(s, events, credential).log_bound == s.log_bound,
        run(s, events, credential).logs == append_each(s.logs, s.log_bound, logged(events)),
    decreases events.len(),
{
    if events.len() > 0 {
        lemma_run_logs(s, events.drop_last(), credential);
        match events.last() {
            EventView::Output(stream, text) => {
                let entry = LogEntryView { stream, text };
                assert(logged(events).drop_last() =~= logged(events.drop_last()));
                assert(logged(events).last() == entry);
            },
            _ => {},
        }
    }
}

/// While no healthy answer and no late reading of the clock arrives, a
/// polling supervisor goes on polling, for the same server with the same
/// credential, and publishes nothing.
pub proof fn lemma_waiting_goes_on(
    s: SupervisorView,
    events: Seq<EventView>,
    credential: Seq<char>,
)
    requires
        is_polling(s.phase),
        all_keep_waiting(events),
    ensures
        is_polling(run(s, events, credential).phase),
        run(s, events, credential).port == s.port,
        run(s, events, credential).password == s.password,
        run(s, events, credential).spawned == s.spawned,
        run(s, events, credential).status == s.status,
        run(s, events, credential).job == s.job,
        s.child is None ==> run(s, events, credential).child is None,
    decreases events.len(),
{
    if events.len() > 0 {
        assert(all_keep_waiting(events.drop_last())) by {
            assert forall|i: int| 0 <= i < events.drop_last().len() implies keeps_waiting(
                #[trigger] events.drop_last()[i],
            ) by {
                assert(events.drop_last()[i] == events[i]);
            }
        }
        lemma_waiting_goes_on(s, events.drop_last(), credential);
        assert(keeps_waiting(events[events.len() - 1]));
    }
}

/// If the spawned server answers before the wait runs out, however many
/// probes failed before, the supervisor publishes the local URL of the
/// chosen port with the credential generated for this spawn, and tracks
/// the spawned process. Where there is a kill-on-close group this happens
/// once the registration ended, however it ended.
pub proof fn lemma_answer_in_time_publishes_target(
    s: SupervisorView,
    pid: u32,
    waiting: Seq<EventView>,
    registration: Result<(), Seq<char>>,
    credential: Seq<char>,
)
    requires
        s.phase == Phase::ProbingLocal,
        s.status is Pending,
        all_keep_waiting(waiting),
        run(s, spawn_events(pid) + waiting, credential).phase == Phase::ProbingSpawned,
    ensures
        ({
            let answered = run(
                s,
                spawn_events(pid) + waiting + seq![EventView::Health(true)],
                credential,
            );
            let done = if answered.phase == Phase::Registering {
                next(answered, EventView::Assigned(registration), credential).0
            } else {
                answered
            };
            &&& done.phase == Phase::Settled
            &&& done.status == ReadinessView::Published(
                Ok(ReadyView { url: http_url(LOCAL_HOSTNAME@, s.port), password: Some(credential) }),
            )
            &&& done.child == Some(pid)
        }),
{
    let spawned = run(s, spawn_events(pid), credential);
    assert(spawned.phase == Phase::CheckingClock && spawned.password == Some(credential)
        && spawned.spawned == Some(pid) && spawned.port == s.port && spawned.status == s.status)
        by {
        let first = seq![EventView::Health(false)];
        assert(spawn_events(pid) =~= first + seq![EventView::Spawned(pid)]);
        lemma_run_split(s, first, seq![EventView::Spawned(pid)], credential);
        lemma_run_one(s, EventView::Health(false), credential);
        lemma_run_one(run(s, first, credential), EventView::Spawned(pid), credential);
    }
    lemma_run_split(s, spawn_events(pid), waiting, credential);
    lemma_waiting_goes_on(spawned, waiting, credential);
    let before = run(s, spawn_events(pid) + waiting, credential);
    lemma_run_split(s, spawn_events(pid) + waiting, seq![EventView::Health(true)], credential);
    lemma_run_one(before, EventView::Health(true), credential);
}

/// If the wait runs out before the spawned server answers, the supervisor
/// publishes a failure whose logs are all output lines that came up to
/// then, in the order in which they came, as far as the log ring's bound
/// lets them stay.
pub proof fn lemma_timeout_publishes_logs(
    s: SupervisorView,
    pid: u32,
    waiting: Seq<EventView>,
    elapsed: crate::supervisor::Elapsed,
    credential: Seq<char>,
)
    requires
        s.phase == Phase::ProbingLocal,
        s.status is Pending,
        s.logs.len() <= s.log_bound,
        all_keep_waiting(waiting),
        timed_out(elapsed),
        run(s, spawn_events(pid) + waiting, credential).phase == Phase::CheckingClock,
    ensures
        ({
            let done = run(
                s,
                spawn_events(pid) + waiting + seq![EventView::Clock(elapsed)],
                credential,
            );
            &&& done.phase == Phase::Settled
            &&& done.status == ReadinessView::Published(
                Err(
                    ServerErrorView::SpawnTimedOut {
                        logs: render_all(keep_latest(s.logs + logged(waiting), s.log_bound)),
                    },
                ),
            )
        }),
{
    let spawned = run(s, spawn_events(pid), credential);
    assert(spawned.phase == Phase::CheckingClock && spawned.status == s.status && spawned.logs
        == s.logs && spawned.log_bound == s.log_bound) by {
        let first = seq![EventView::Health(false)];
        assert(spawn_events(pid) =~= first + seq![EventView::Spawned(pid)]);
        lemma_run_split(s, first, seq![EventView::Spawned(pid)], credential);
        lemma_run_one(s, EventView::Health(false), credential);
        lemma_run_one(run(s, first, credential), EventView::Spawned(pid), credential);
    }
    lemma_run_split(s, spawn_events(pid), waiting, credential);
    lemma_waiting_goes_on(spawned, waiting, credential);
    lemma_run_logs(spawned, waiting, credential);
    lemma_append_each_keeps_latest(s.logs, s.log_bound, logged(waiting));
    let before = run(s, spawn_events(pid) + waiting, credential);
    lemma_run_split(s, spawn_events(pid) + waiting, seq![EventView::Clock(elapsed)], credential);
    lemma_run_one(before, EventView::Clock(elapsed), credential);
}

/// Once the readiness cell is settled, no event changes it: every
/// consumer sees the result that was published first, whenever it looks.
pub proof fn lemma_settled_status_stays(
    s: SupervisorView,
    events: Seq<EventView>,
    credential: Seq<char>,
)
    requires
        !(s.status is Pending),
    ensures
        run(s, events, credential).status == s.status,
    decreases events.len(),
{
    if events.len() > 0 {
        lemma_settled_status_stays(s, events.drop_last(), credential);
    }
}

/// A supervisor that has the local probe behind it never goes back, and
/// asks for no spawn.
pub proof fn lemma_past_local_probe_stays(
    s: SupervisorView,
    events: Seq<EventView>,
    credential: Seq<char>,
)
    requires
        is_past_local_probe(s.phase),
    ensures
        is_past_local_probe(run(s, events, credential).phase),
        forall|k: int|
            0 <= k < events.len() ==> !(#[trigger] action_at(s, events, credential, k) is Spawn),
    decreases events.len(),
{
    if events.len() > 0 {
        let front = events.drop_last();
        lemma_past_local_probe_stays(s, front, credential);
        assert forall|k: int| 0 <= k < events.len() implies !(#[trigger] action_at(
            s,
            events,
            credential,
            k,
        ) is Spawn) by {
            if k < front.len() {
                assert(front.take(k) =~= events.take(k));
                assert(action_at(s, front, credential, k) == action_at(s, events, credential, k));
            } else {
                assert(events.take(k) =~= front);
            }
        }
    }
}

/// At most one server is spawned in a run: after the event that is
/// answered with a spawn, no later event is.
pub proof fn lemma_spawns_at_most_once(
    s: SupervisorView,
    events: Seq<EventView>,
    credential: Seq<char>,
    i: int,
    j: int,
)
    requires
        0 <= i < j < events.len(),
        action_at(s, events, credential, i) is Spawn,
    ensures
        !(action_at(s, events, credential, j) is Spawn),
{
    let upto = events.take(i + 1);
    let rest = events.skip(i + 1);
    assert(upto.drop_last() =~= events.take(i));
    assert(upto.last() == events[i]);
    let after = run(s, upto, credential);
    assert(is_past_local_probe(after.phase));
    lemma_past_local_probe_stays(after, rest, credential);
    let k = j - (i + 1);
    assert(rest[k] == events[j]);
    assert(upto + rest.take(k) =~= events.take(j));
    lemma_run_split(s, upto, rest.take(k), credential);
    assert(action_at(after, rest, credential, k) == action_at(s, events, credential, j));
}

/// A supervisor that has published its result stays as it is but for the
/// log and the tracked child, and announces nothing more.
pub proof fn lemma_settled_stays(s: SupervisorView, events: Seq<EventView>, credential: Seq<char>)
    requires
        s.phase == Phase::Settled,
    ensures
        run(s, events, credential).phase == Phase::Settled,
        forall|k: int|
            0 <= k < events.len() ==> !(#[trigger] action_at(s, events, credential, k)
                is Announce),
    decreases events.len(),
{
    if events.len() > 0 {
        let front = events.drop_last();
        lemma_settled_stays(s, front, credential);
        assert forall|k: int| 0 <= k < events.len() implies !(#[trigger] action_at(
            s,
            events,
            credential,
            k,
        ) is Announce) by {
            if k < front.len() {
                assert(front.take(k) =~= events.take(k));
                assert(action_at(s, front, credential, k) == action_at(s, events, credential, k));
            } else {
                assert(events.take(k) =~= front);
            }
        }
    }
}

/// A result is announced at most once in a run: after the event that is
/// answered with the announcement, no later event is.
pub proof fn lemma_announces_at_most_once(
    s: SupervisorView,
    events: Seq<EventView>,
    credential: Seq<char>,
    i: int,
    j: int,
)
    requires
        0 <= i < j < events.len(),
        action_at(s, events, credential, i) is Announce,
    ensures
        !(action_at(s, events, credential, j) is Announce),
{
    let upto = events.take(i + 1);
    let rest = events.skip(i + 1);
    assert(upto.drop_last() =~= events.take(i));
    assert(upto.last() == events[i]);
    let after = run(s, upto, credential);
    assert(after.phase == Phase::Settled);
    lemma_settled_stays(after, rest, credential);
    let k = j - (i + 1);
    assert(rest[k] == events[j]);
    assert(upto + rest.take(k) =~= events.take(j));
    lemma_run_split(s, upto, rest.take(k), credential);
    assert(action_at(after, rest, credential, k) == action_at(s, events, credential, j));
}

/// In every run from the initial state, a child is tracked only if it is
/// the server that this run spawned; and as long as the local probe is
/// not behind the supervisor, as on the whole way to a server found at a
/// custom URL, nothing is spawned and no child is tracked.
pub proof fn lemma_child_is_the_spawned_server(
    log_bound: nat,
    job: crate::registrar::JobObjectView,
    events: Seq<EventView>,
    credential: Seq<char>,
)
    ensures
        ({
            let reached = run(initial_state(log_bound, job), events, credential);
            &&& reached.child is Some ==> reached.child == reached.spawned
            &&& !is_past_local_probe(reached.phase) ==> reached.spawned is None && reached.child
                is None
        }),
{
    lemma_run_is_consistent(initial_state(log_bound, job), events, credential);
}

} // verus!
