//! The dump actor: its state, its requests and its transitions.

use vstd::prelude::*;
use crate::clock::{generate_uid, now_millis};
use crate::error::{DumpError, DumpErrorView, TaskOutcome, TaskOutcomeView};
use crate::exclusion::ExclusionGate;
use crate::registry::{resolved, StatusRegistry};
use crate::status::{DumpInfo, DumpInfoView};

verus! {

/// How many requests may be handled at the same time.
pub const CONCURRENT_DUMP_MSG: usize = 10;

/// A request to the actor.
#[derive(Debug, PartialEq, Eq)]
pub enum DumpMsg {
    /// Start a dump.
    CreateDump,
    /// Report the status of the dump with this identifier.
    DumpInfo { uid: String },
}

/// One thing that happens to the actor, with the clock readings that its
/// handling needs, so that a run of events has one outcome.
#[derive(Debug, PartialEq, Eq)]
pub enum DumpEvent {
    /// A request to start a dump arrives at `now`; `uid` is the identifier
    /// made for it.
    CreateDump { uid: String, now: i64 },
    /// A status query for `uid` arrives.
    DumpInfo { uid: String },
    /// The task of dump `uid` ends with `outcome` at `now`.
    TaskFinished { uid: String, outcome: TaskOutcome, now: i64 },
}

/// The mathematical value of a `DumpEvent`.
pub ghost enum DumpEventView {
    CreateDump { uid: Seq<char>, now: i64 },
    DumpInfo { uid: Seq<char> },
    TaskFinished { uid: Seq<char>, outcome: TaskOutcomeView, now: i64 },
}

impl View for DumpEvent {
    type V = DumpEventView;

    open spec fn view(&self) -> DumpEventView {
        match self {
            DumpEvent::CreateDump { uid, now } => DumpEventView::CreateDump { uid: uid@, now: *now },
            DumpEvent::DumpInfo { uid } => DumpEventView::DumpInfo { uid: uid@ },
            DumpEvent::TaskFinished { uid, outcome, now } => DumpEventView::TaskFinished {
                uid: uid@,
                outcome: outcome@,
                now: *now,
            },
        }
    }
}

/// The values of a sequence of events.
pub open spec fn events_view(events: Seq<DumpEvent>) -> Seq<DumpEventView> {
    events.map_values(|e: DumpEvent| e@)
}

/// The mathematical value of what an event is answered with: requests get
/// a reply, the end of a task gets none.
pub open spec fn answer_view(answer: Option<DumpResult>) -> Option<
    Result<DumpInfoView, DumpErrorView>,
> {
    match answer {
        Some(reply) => Some(reply_view(reply)),
        None => None,
    }
}

/// What the task that performs a dump is started with.
#[derive(Debug, PartialEq, Eq)]
pub struct DumpTask {
    pub path: String,
    pub uid: String,
    pub update_db_size: u64,
    pub index_db_size: u64,
}

/// The actor's answer to a request.
pub type DumpResult = Result<DumpInfo, DumpError>;

/// The mathematical value of an answer.
pub open spec fn reply_view(reply: DumpResult) -> Result<DumpInfoView, DumpErrorView> {
    match reply {
        Ok(info) => Ok(info@),
        Err(e) => Err(e@),
    }
}

/// The part of the actor that its transitions read and change.
pub ghost struct ActorState {
    /// Whether the lock is held.
    pub lock_held: bool,
    /// The registry: each accepted dump's record under its identifier.
    pub infos: Map<Seq<char>, DumpInfoView>,
    /// Where dumps are written.
    pub dump_path: Seq<char>,
    /// The size budget of the index database, handed to each dump task.
    pub index_db_size: u64,
    /// The size budget of the update database, handed to each dump task.
    pub update_db_size: u64,
}

impl ActorState {
    /// The state of a new actor with these settings: the lock free, the
    /// registry empty.
    pub open spec fn initial(
        dump_path: Seq<char>,
        index_db_size: u64,
        update_db_size: u64,
    ) -> ActorState {
        ActorState {
            lock_held: false,
            infos: Map::empty(),
            dump_path,
            index_db_size,
            update_db_size,
        }
    }

    /// Whether a dump with identifier `uid` is running.
    pub open spec fn running(self, uid: Seq<char>) -> bool {
        self.infos.contains_key(uid) && self.infos[uid].in_progress()
    }

    /// Each record stands under its own identifier and its fields agree
    /// with its status; the lock is held exactly while some dump is running;
    /// and no two dumps are running.
    pub open spec fn wf(self) -> bool {
        &&& forall|uid: Seq<char>| #[trigger]
            self.infos.contains_key(uid) ==> self.infos[uid].uid == uid
                && self.infos[uid].consistent()
        &&& self.lock_held <==> exists|uid: Seq<char>| #[trigger] self.running(uid)
        &&& forall|a: Seq<char>, b: Seq<char>| #[trigger]
            self.running(a) && #[trigger] self.running(b) ==> a == b
    }

    /// The state after a request to start a dump, made at `now` under the
    /// fresh identifier `uid`: with the lock free, the lock is taken and a
    /// running record is stored; with the lock held, nothing changes.
    pub open spec fn accept(self, uid: Seq<char>, now: i64) -> ActorState {
        if self.lock_held {
            self
        } else {
            ActorState {
                lock_held: true,
                infos: self.infos.insert(uid, DumpInfoView::started(uid, now)),
                ..self
            }
        }
    }

    /// The answer to that request.
    pub open spec fn accept_reply(self, uid: Seq<char>, now: i64) -> Result<
        DumpInfoView,
        DumpErrorView,
    > {
        if self.lock_held {
            Err(DumpErrorView::AlreadyRunning)
        } else {
            Ok(DumpInfoView::started(uid, now))
        }
    }

    /// The state after the task of dump `uid` ended with `outcome` at
    /// `now`: a running record becomes done or failed and the lock is
    /// freed; for a record that is not running nothing changes.
    pub open spec fn finish(self, uid: Seq<char>, outcome: TaskOutcomeView, now: i64) -> ActorState {
        ActorState {
            lock_held: self.lock_held && !self.running(uid),
            infos: resolved(self.infos, uid, outcome, now),
            ..self
        }
    }

    /// The answer to a status query for `uid`.
    pub open spec fn query(self, uid: Seq<char>) -> Result<DumpInfoView, DumpErrorView> {
        if self.infos.contains_key(uid) {
            Ok(self.infos[uid])
        } else {
            Err(DumpErrorView::NotFound(uid))
        }
    }

    /// Whether `event` can happen in this state: a task can only end for a
    /// dump that is on record.
    pub open spec fn admits(self, event: DumpEventView) -> bool {
        match event {
            DumpEventView::TaskFinished { uid, .. } => self.infos.contains_key(uid),
            _ => true,
        }
    }

    /// The state after `event`.
    pub open spec fn step(self, event: DumpEventView) -> ActorState {
        match event {
            DumpEventView::CreateDump { uid, now } => self.accept(uid, now),
            DumpEventView::DumpInfo { .. } => self,
            DumpEventView::TaskFinished { uid, outcome, now } => self.finish(uid, outcome, now),
        }
    }

    /// What `event` is answered with in this state.
    pub open spec fn answer(self, event: DumpEventView) -> Option<
        Result<DumpInfoView, DumpErrorView>,
    > {
        match event {
            DumpEventView::CreateDump { uid, now } => Some(self.accept_reply(uid, now)),
            DumpEventView::DumpInfo { uid } => Some(self.query(uid)),
            DumpEventView::TaskFinished { .. } => None,
        }
    }

    /// The state after `events`, taken in order.
    pub open spec fn replay(self, events: Seq<DumpEventView>) -> ActorState
        decreases events.len(),
    {
        if events.len() == 0 {
            self
        } else {
            self.replay(events.drop_last()).step(events.last())
        }
    }

    /// Whether `events` can happen in order from this state.
    pub open spec fn admits_all(self, events: Seq<DumpEventView>) -> bool
        decreases events.len(),
    {
        events.len() > 0 ==> self.admits_all(events.drop_last()) && self.replay(
            events.drop_last(),
        ).admits(events.last())
    }
}

/// The actor: the registry, the lock, and the settings that each dump task
/// is started with.
#[derive(Debug)]
pub struct DumpActor {
    dump_path: String,
    update_db_size: u64,
    index_db_size: u64,
    lock: ExclusionGate,
    dump_infos: StatusRegistry,
}

impl View for DumpActor {
    type V = ActorState;

    closed spec fn view(&self) -> ActorState {
        ActorState {
            lock_held: self.lock.is_held(),
            infos: self.dump_infos@,
            dump_path: self.dump_path@,
            index_db_size: self.index_db_size,
            update_db_size: self.update_db_size,
        }
    }
}

impl DumpActor {
    /// The registry is sound and the state is well-formed.
    pub closed spec fn wf(&self) -> bool {
        self.dump_infos.wf() && self@.wf()
    }

    /// Well-formedness of the actor is that of its state.
    pub proof fn lemma_wf(&self)
        requires
            self.wf(),
        ensures
            self@.wf(),
    {
    }

    /// An actor with no dump on record and the lock free.
    pub fn new(dump_path: String, index_db_size: u64, update_db_size: u64) -> (res: Self)
        ensures
            res.wf(),
            res@ == ActorState::initial(dump_path@, index_db_size, update_db_size),
    {
        let res = DumpActor {
            dump_path,
            update_db_size,
            index_db_size,
            lock: ExclusionGate::new(),
            dump_infos: StatusRegistry::new(),
        };
        assert(forall|uid: Seq<char>| !res@.running(uid));
        res
    }

    /// Where dumps are written.
    pub fn dump_path(&self) -> (res: &String)
        ensures
            res@ == self@.dump_path,
    {
        &self.dump_path
    }

    /// The size budget of the index database.
    pub fn index_db_size(&self) -> (res: u64)
        ensures
            res == self@.index_db_size,
    {
        self.index_db_size
    }

    /// The size budget of the update database.
    pub fn update_db_size(&self) -> (res: u64)
        ensures
            res == self@.update_db_size,
    {
        self.update_db_size
    }

    /// Whether the lock is held, that is, whether a dump is running.
    pub fn is_dump_running(&self) -> (res: bool)
        ensures
            res == self@.lock_held,
    {
        self.lock.held()
    }

    /// How many dumps are on record.
    pub fn dump_count(&self) -> (res: usize)
        requires
            self.wf(),
        ensures
            res == self@.infos.len(),
            self@.infos.dom().finite(),
    {
        self.dump_infos.len()
    }

    /// Answers a status query: a copy of the record under `uid`, or
    /// `NotFound` with that identifier where there is none.
    pub fn handle_dump_info(&self, uid: String) -> (res: DumpResult)
        requires
            self.wf(),
        ensures
            reply_view(res) == self@.query(uid@),
    {
        match self.dump_infos.get(&uid) {
            Some(info) => Ok(info),
            None => Err(DumpError::NotFound(uid)),
        }
    }

    /// Decides a request to start a dump, made at `now` under the identifier
    /// `uid`. With the lock free the dump is accepted: the lock is taken, a
    /// running record is stored under `uid` and a copy of it is returned.
    /// With the lock held the request is refused with `AlreadyRunning` and
    /// nothing changes.
    pub fn accept_dump(&mut self, uid: String, now: i64) -> (res: DumpResult)
        requires
            old(self).wf(),
        ensures
            final(self).wf(),
            final(self)@ == old(self)@.accept(uid@, now),
            reply_view(res) == old(self)@.accept_reply(uid@, now),
    {
        let ghost before = self@;
        if !self.lock.try_lock() {
            return Err(DumpError::AlreadyRunning);
        }
        let info = DumpInfo::new(uid, now);
        self.dump_infos.insert(info.clone());
        proof {
            assert(self@ == before.accept(uid@, now));
            lemma_accept_wf(before, uid@, now);
        }
        Ok(info)
    }

    /// Handles a request to start a dump: reads the clock for the
    /// identifier and the starting time, then decides as `accept_dump`
    /// does. The dump is accepted exactly if the lock was free, and the
    /// record returned is the one now stored.
    pub fn handle_create_dump(&mut self) -> (res: DumpResult)
        requires
            old(self).wf(),
        ensures
            final(self).wf(),
            match res {
                Ok(info) => !old(self)@.lock_held
                    && info@ == DumpInfoView::started(info@.uid, info@.started_at)
                    && final(self)@ == old(self)@.accept(info@.uid, info@.started_at),
                Err(e) => old(self)@.lock_held && e@ == DumpErrorView::AlreadyRunning
                    && final(self)@ == old(self)@,
            },
    {
        let uid = generate_uid();
        let now = now_millis();
        self.accept_dump(uid, now)
    }

    /// The parameters for the task that performs dump `uid`: the actor's
    /// settings and the identifier.
    pub fn dump_task(&self, uid: &String) -> (task: DumpTask)
        ensures
            task.path@ == self@.dump_path,
            task.uid@ == uid@,
            task.update_db_size == self@.update_db_size,
            task.index_db_size == self@.index_db_size,
    {
        DumpTask {
            path: self.dump_path.clone(),
            uid: uid.clone(),
            update_db_size: self.update_db_size,
            index_db_size: self.index_db_size,
        }
    }

    /// Records at `now` how the task of dump `uid` ended. A running record
    /// becomes done on success and failed otherwise, with the task's
    /// description or, after a crash, a fixed message; the lock is freed.
    /// A record that already finished is left as it is.
    pub fn finish_dump(&mut self, uid: &String, outcome: &TaskOutcome, now: i64)
        requires
            old(self).wf(),
            old(self)@.infos.contains_key(uid@),
        ensures
            final(self).wf(),
            final(self)@ == old(self)@.finish(uid@, outcome@, now),
    {
        let ghost before = self@;
        let changed = self.dump_infos.resolve(uid, outcome, now);
        if changed {
            self.lock.release();
        }
        proof {
            assert(self@ == before.finish(uid@, outcome@, now));
            lemma_finish_wf(before, uid@, outcome@, now);
        }
    }

    /// Records how the task of dump `uid` ended, as `finish_dump` does, at
    /// the time that the clock gives.
    pub fn handle_task_result(&mut self, uid: &String, outcome: &TaskOutcome)
        requires
            old(self).wf(),
            old(self)@.infos.contains_key(uid@),
        ensures
            final(self).wf(),
            exists|now: i64| final(self)@ == old(self)@.finish(uid@, outcome@, now),
    {
        let now = now_millis();
        self.finish_dump(uid, outcome, now);
    }

    /// Handles one event: a request is decided and answered, the end of a
    /// task is recorded and gets no answer.
    pub fn step(&mut self, event: &DumpEvent) -> (res: Option<DumpResult>)
        requires
            old(self).wf(),
            old(self)@.admits(event@),
        ensures
            final(self).wf(),
            final(self)@ == old(self)@.step(event@),
            answer_view(res) == old(self)@.answer(event@),
    {
        match event {
            DumpEvent::CreateDump { uid, now } => Some(self.accept_dump(uid.clone(), *now)),
            DumpEvent::DumpInfo { uid } => Some(self.handle_dump_info(uid.clone())),
            DumpEvent::TaskFinished { uid, outcome, now } => {
                self.finish_dump(uid, outcome, *now);
                None
            },
        }
    }

    /// Handles the events of `inbox` in order until it is exhausted, and
    /// returns what each was answered with.
    pub fn run(&mut self, inbox: &Vec<DumpEvent>) -> (res: Vec<Option<DumpResult>>)
        requires
            old(self).wf(),
            old(self)@.admits_all(events_view(inbox@)),
        ensures
            final(self).wf(),
            final(self)@ == old(self)@.replay(events_view(inbox@)),
            res.len() == inbox.len(),
            forall|i: int|
                0 <= i < inbox.len() ==> answer_view(#[trigger] res[i]) == old(self)@.replay(
                    events_view(inbox@).take(i),
                ).answer(inbox[i]@),
    {
        let ghost start = self@;
        let ghost events = events_view(inbox@);
        let mut res: Vec<Option<DumpResult>> = Vec::new();
        let mut i: usize = 0;
        while i < inbox.len()
            invariant
                i <= inbox.len(),
                events == events_view(inbox@),
                self.wf(),
                start.admits_all(events),
                self@ == start.replay(events.take(i as int)),
                res.len() == i,
                forall|j: int|
                    0 <= j < i ==> answer_view(#[trigger] res[j]) == start.replay(
                        events.take(j),
                    ).answer(inbox[j]@),
            decreases inbox.len() - i,
        {
            proof {
                lemma_admits_prefix(start, events, i as int + 1);
                assert(events.take(i as int + 1).drop_last() =~= events.take(i as int));
            }
            let answer = self.step(&inbox[i]);
            res.push(answer);
            i += 1;
        }
        proof {
            assert(events.take(i as int) =~= events);
        }
        res
    }

    /// Dispatches a request to its handler and returns the answer.
    pub fn handle_message(&mut self, msg: DumpMsg) -> (res: DumpResult)
        requires
            old(self).wf(),
        ensures
            final(self).wf(),
            match msg {
                DumpMsg::CreateDump => match res {
                    Ok(info) => !old(self)@.lock_held
                        && info@ == DumpInfoView::started(info@.uid, info@.started_at)
                        && final(self)@ == old(self)@.accept(info@.uid, info@.started_at),
                    Err(e) => old(self)@.lock_held && e@ == DumpErrorView::AlreadyRunning
                        && final(self)@ == old(self)@,
                },
                DumpMsg::DumpInfo { uid } => final(self)@ == old(self)@
                    && reply_view(res) == old(self)@.query(uid@),
            },
    {
        match msg {
            DumpMsg::CreateDump => self.handle_create_dump(),
            DumpMsg::DumpInfo { uid } => self.handle_dump_info(uid),
        }
    }
}

/// Events that can happen in order can also happen up to any point.
pub proof fn lemma_admits_prefix(s: ActorState, events: Seq<DumpEventView>, n: int)
    requires
        s.admits_all(events),
        0 <= n <= events.len(),
    ensures
        s.admits_all(events.take(n)),
    decreases events.len(),
{
    if n == events.len() {
        assert(events.take(n) =~= events);
    } else {
        lemma_admits_prefix(s, events.drop_last(), n);
        assert(events.drop_last().take(n) =~= events.take(n));
    }
}

/// Accepting or refusing a dump keeps the state well-formed.
pub proof fn lemma_accept_wf(s: ActorState, uid: Seq<char>, now: i64)
    requires
        s.wf(),
    ensures
        s.accept(uid, now).wf(),
{
    let t = s.accept(uid, now);
    if !s.lock_held {
        assert(forall|k: Seq<char>| !s.running(k));
        assert(t.running(uid));
        assert forall|k: Seq<char>| #[trigger] t.running(k) implies k == uid by {
            if k != uid {
                assert(s.running(k));
            }
        }
    }
}

/// Recording a task's outcome keeps the state well-formed.
pub proof fn lemma_finish_wf(s: ActorState, uid: Seq<char>, outcome: TaskOutcomeView, now: i64)
    requires
        s.wf(),
    ensures
        s.finish(uid, outcome, now).wf(),
{
    let t = s.finish(uid, outcome, now);
    if s.running(uid) {
        assert forall|k: Seq<char>| !t.running(k) by {
            if k != uid && t.running(k) {
                assert(s.running(k));
            }
        }
    } else {
        assert(t == s);
    }
}

} // verus!
