//! What holds of the actor in every state and over every run of events.

use vstd::prelude::*;
use crate::actor::{lemma_accept_wf, lemma_finish_wf, ActorState, DumpEventView};
use crate::error::{crash_message, DumpErrorView, TaskOutcomeView};
use crate::status::{DumpInfoView, DumpStatus};

verus! {

/// The record under `uid`, if there is one.
pub open spec fn record(s: ActorState, uid: Seq<char>) -> Option<DumpInfoView> {
    if s.infos.contains_key(uid) {
        Some(s.infos[uid])
    } else {
        None
    }
}

/// How the record under one identifier may differ before and after one
/// event: a record appears only as running; a running record stays as it
/// is or finishes; a finished record never changes; no record disappears.
pub open spec fn moves_forward(before: Option<DumpInfoView>, after: Option<DumpInfoView>) -> bool {
    match before {
        None => after.is_none() || after.unwrap().in_progress(),
        Some(b) => after.is_some() && if b.in_progress() {
            after.unwrap() == b || !after.unwrap().in_progress()
        } else {
            after.unwrap() == b
        },
    }
}

/// How the record under one identifier may differ before and after any
/// number of events: no record disappears, a running record stays as it is
/// or finishes, and a finished record never changes.
pub open spec fn never_goes_back(
    before: Option<DumpInfoView>,
    after: Option<DumpInfoView>,
) -> bool {
    before.is_some() ==> after.is_some() && if before.unwrap().in_progress() {
        after.unwrap() == before.unwrap() || !after.unwrap().in_progress()
    } else {
        after.unwrap() == before.unwrap()
    }
}

/// Whether a request to start a dump brings an identifier that is not on
/// record yet, where it is accepted. Other events qualify as they are.
pub open spec fn brings_fresh_uid(s: ActorState, event: DumpEventView) -> bool {
    match event {
        DumpEventView::CreateDump { uid, .. } => s.lock_held || !s.infos.contains_key(uid),
        _ => true,
    }
}

/// Whether every accepted request of `events`, taken in order from `s`,
/// brings an identifier that is not on record at that point.
pub open spec fn brings_fresh_uids(s: ActorState, events: Seq<DumpEventView>) -> bool
    decreases events.len(),
{
    events.len() > 0 ==> brings_fresh_uids(s, events.drop_last()) && brings_fresh_uid(
        s.replay(events.drop_last()),
        events.last(),
    )
}

/// Whether no request of `events` to start a dump brings `uid`.
pub open spec fn never_issued(events: Seq<DumpEventView>, uid: Seq<char>) -> bool {
    forall|i: int|
        0 <= i < events.len() ==> match #[trigger] events[i] {
            DumpEventView::CreateDump { uid: issued, .. } => issued != uid,
            _ => true,
        }
}

/// Every event keeps the state well-formed.
pub proof fn law_step_keeps_wf(s: ActorState, event: DumpEventView)
    requires
        s.wf(),
    ensures
        s.step(event).wf(),
{
    match event {
        DumpEventView::CreateDump { uid, now } => lemma_accept_wf(s, uid, now),
        DumpEventView::DumpInfo { .. } => {},
        DumpEventView::TaskFinished { uid, outcome, now } => lemma_finish_wf(s, uid, outcome, now),
    }
}

/// Every run of events keeps the state well-formed.
pub proof fn law_replay_keeps_wf(s: ActorState, events: Seq<DumpEventView>)
    requires
        s.wf(),
    ensures
        s.replay(events).wf(),
    decreases events.len(),
{
    if events.len() > 0 {
        law_replay_keeps_wf(s, events.drop_last());
        law_step_keeps_wf(s.replay(events.drop_last()), events.last());
    }
}

/// Of two requests to start a dump with nothing in between, the second is
/// refused with `AlreadyRunning` and changes nothing: at most one of the two
/// is accepted.
pub proof fn law_second_request_refused(
    s: ActorState,
    uid_a: Seq<char>,
    now_a: i64,
    uid_b: Seq<char>,
    now_b: i64,
)
    ensures
        s.accept(uid_a, now_a).accept_reply(uid_b, now_b) == Err::<DumpInfoView, DumpErrorView>(
            DumpErrorView::AlreadyRunning,
        ),
        s.accept(uid_a, now_a).accept(uid_b, now_b) == s.accept(uid_a, now_a),
{
}

/// While a dump is running, every request to start another is refused and
/// leaves the state as it is.
pub proof fn law_refused_while_running(
    s: ActorState,
    running: Seq<char>,
    uid: Seq<char>,
    now: i64,
)
    requires
        s.wf(),
        s.running(running),
    ensures
        s.accept_reply(uid, now) == Err::<DumpInfoView, DumpErrorView>(
            DumpErrorView::AlreadyRunning,
        ),
        s.accept(uid, now) == s,
{
}

/// After any run of events, in whatever order they came, at most one dump
/// is running.
pub proof fn law_at_most_one_running(
    s: ActorState,
    events: Seq<DumpEventView>,
    a: Seq<char>,
    b: Seq<char>,
)
    requires
        s.wf(),
        s.replay(events).running(a),
        s.replay(events).running(b),
    ensures
        a == b,
{
    law_replay_keeps_wf(s, events);
}

/// Over one event the record under any identifier only moves forward: it
/// appears as running, finishes at most once and never changes after that.
/// This needs the identifier of an accepted request to be new: one that is
/// already on record would put the running record in place of the old one.
pub proof fn law_step_moves_forward(s: ActorState, event: DumpEventView, uid: Seq<char>)
    requires
        s.wf(),
        brings_fresh_uid(s, event),
    ensures
        moves_forward(record(s, uid), record(s.step(event), uid)),
{
}

/// Requests that bring fresh identifiers throughout do so up to any point.
pub proof fn lemma_fresh_prefix(s: ActorState, events: Seq<DumpEventView>, n: int)
    requires
        brings_fresh_uids(s, events),
        0 <= n <= events.len(),
    ensures
        brings_fresh_uids(s, events.take(n)),
    decreases events.len(),
{
    if n == events.len() {
        assert(events.take(n) =~= events);
    } else {
        lemma_fresh_prefix(s, events.drop_last(), n);
        assert(events.drop_last().take(n) =~= events.take(n));
    }
}

/// Observed at any two points of a run of events, the earlier after
/// `early` events and the later after `late`, the record under any
/// identifier never goes back: it is never removed, a running record stays
/// or finishes, and a finished record stays as it is.
pub proof fn law_observed_in_order(
    s: ActorState,
    events: Seq<DumpEventView>,
    early: int,
    late: int,
    uid: Seq<char>,
)
    requires
        s.wf(),
        brings_fresh_uids(s, events),
        0 <= early <= late <= events.len(),
    ensures
        never_goes_back(
            record(s.replay(events.take(early)), uid),
            record(s.replay(events.take(late)), uid),
        ),
    decreases late - early,
{
    if early < late {
        let upto = events.take(late);
        let before = s.replay(events.take(late - 1));
        assert(upto.drop_last() =~= events.take(late - 1));
        law_observed_in_order(s, events, early, late - 1, uid);
        law_replay_keeps_wf(s, events.take(late - 1));
        lemma_fresh_prefix(s, events, late);
        law_step_moves_forward(before, upto.last(), uid);
    }
}

/// Over any run of events the record under any identifier never goes back:
/// what held of it at the start relates in that way to what holds at the
/// end.
pub proof fn law_replay_never_goes_back(s: ActorState, events: Seq<DumpEventView>, uid: Seq<char>)
    requires
        s.wf(),
        brings_fresh_uids(s, events),
    ensures
        never_goes_back(record(s, uid), record(s.replay(events), uid)),
{
    law_observed_in_order(s, events, 0, events.len() as int, uid);
    assert(events.take(0) =~= Seq::<DumpEventView>::empty());
    assert(events.take(events.len() as int) =~= events);
}

/// When the task of a running dump ends, however it ends, the record stops
/// running: it is done after a success and failed otherwise, with the time
/// of the end, and the lock is free again.
pub proof fn law_finish_resolves(s: ActorState, uid: Seq<char>, outcome: TaskOutcomeView, now: i64)
    requires
        s.wf(),
        s.running(uid),
    ensures
        s.finish(uid, outcome, now).infos.contains_key(uid),
        !s.finish(uid, outcome, now).running(uid),
        !s.finish(uid, outcome, now).lock_held,
        s.finish(uid, outcome, now).infos[uid].finished_at == Some(now),
        s.finish(uid, outcome, now).infos[uid].error == outcome.error_message(),
        s.finish(uid, outcome, now).infos[uid].status == if outcome
            == TaskOutcomeView::Succeeded {
            DumpStatus::Done
        } else {
            DumpStatus::Failed
        },
{
}

/// A task that crashes leaves its record failed with the fixed message and
/// the actor sound: the record can still be queried and the next request to
/// start a dump is accepted.
pub proof fn law_crash_contained(
    s: ActorState,
    uid: Seq<char>,
    now: i64,
    next_uid: Seq<char>,
    next_now: i64,
)
    requires
        s.wf(),
        s.running(uid),
    ensures
        ({
            let t = s.finish(uid, TaskOutcomeView::Crashed, now);
            &&& t.wf()
            &&& t.query(uid) == Ok::<DumpInfoView, DumpErrorView>(
                s.infos[uid].with_error(crash_message(), now),
            )
            &&& t.infos[uid].status == DumpStatus::Failed
            &&& t.accept_reply(next_uid, next_now) == Ok::<DumpInfoView, DumpErrorView>(
                DumpInfoView::started(next_uid, next_now),
            )
        }),
{
    lemma_finish_wf(s, uid, TaskOutcomeView::Crashed, now);
}

/// A query for an identifier that is not on record fails with `NotFound`
/// and that identifier.
pub proof fn law_unknown_uid_not_found(s: ActorState, uid: Seq<char>)
    requires
        !s.infos.contains_key(uid),
    ensures
        s.query(uid) == Err::<DumpInfoView, DumpErrorView>(DumpErrorView::NotFound(uid)),
{
}

/// An identifier that no request has brought is not on record after any run
/// of events from a new actor, so a query for it fails with `NotFound`.
pub proof fn law_never_issued_not_found(s: ActorState, events: Seq<DumpEventView>, uid: Seq<char>)
    requires
        !s.infos.contains_key(uid),
        never_issued(events, uid),
    ensures
        s.replay(events).query(uid) == Err::<DumpInfoView, DumpErrorView>(
            DumpErrorView::NotFound(uid),
        ),
    decreases events.len(),
{
    if events.len() > 0 {
        let rest = events.drop_last();
        assert forall|i: int| 0 <= i < rest.len() implies match #[trigger] rest[i] {
            DumpEventView::CreateDump { uid: issued, .. } => issued != uid,
            _ => true,
        } by {
            assert(rest[i] == events[i]);
        }
        law_never_issued_not_found(s, rest, uid);
        assert(events.last() == events[events.len() - 1]);
    }
}

/// Once a request to start a dump has been answered with a record, a query
/// for that record's identifier finds the same record.
pub proof fn law_reply_then_query(s: ActorState, uid: Seq<char>, now: i64)
    ensures
        match s.accept_reply(uid, now) {
            Ok(info) => s.accept(uid, now).query(info.uid) == Ok::<DumpInfoView, DumpErrorView>(
                info,
            ),
            Err(_) => true,
        },
{
}

/// A record, once stored, is found by every later query: no run of events
/// removes it.
pub proof fn law_record_is_kept(s: ActorState, events: Seq<DumpEventView>, uid: Seq<char>)
    requires
        s.infos.contains_key(uid),
    ensures
        s.replay(events).infos.contains_key(uid),
        s.replay(events).query(uid).is_ok(),
    decreases events.len(),
{
    if events.len() > 0 {
        law_record_is_kept(s, events.drop_last(), uid);
    }
}

} // verus!
