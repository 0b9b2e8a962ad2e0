//! The status record of one dump attempt and its lifecycle.

use vstd::prelude::*;

verus! {

/// Where a dump attempt stands.
#[derive(Clone, Copy, Debug, PartialEq, Eq, Structural)]
pub enum DumpStatus {
    InProgress,
    Done,
    Failed,
}

/// The tracked state of one dump attempt.
///
/// Times are milliseconds since the Unix epoch.
#[derive(Debug, PartialEq, Eq)]
pub struct DumpInfo {
    pub uid: String,
    pub status: DumpStatus,
    pub error: Option<String>,
    pub started_at: i64,
    pub finished_at: Option<i64>,
}

/// The mathematical value of a `DumpInfo`.
pub ghost struct DumpInfoView {
    pub uid: Seq<char>,
    pub status: DumpStatus,
    pub error: Option<Seq<char>>,
    pub started_at: i64,
    pub finished_at: Option<i64>,
}

impl DumpInfoView {
    /// The record of a dump that was just accepted.
    pub open spec fn started(uid: Seq<char>, now: i64) -> DumpInfoView {
        DumpInfoView {
            uid,
            status: DumpStatus::InProgress,
            error: None,
            started_at: now,
            finished_at: None,
        }
    }

    /// This record after its dump succeeded at `now`.
    pub open spec fn done(self, now: i64) -> DumpInfoView {
        DumpInfoView { status: DumpStatus::Done, finished_at: Some(now), ..self }
    }

    /// This record after its dump failed at `now` with `message`.
    pub open spec fn with_error(self, message: Seq<char>, now: i64) -> DumpInfoView {
        DumpInfoView {
            status: DumpStatus::Failed,
            error: Some(message),
            finished_at: Some(now),
            ..self
        }
    }

    /// Whether the dump is still running.
    pub open spec fn in_progress(self) -> bool {
        self.status == DumpStatus::InProgress
    }

    /// The fields agree with the status: a running dump has neither an end
    /// nor an error, a finished one has an end, and only a failed one has an
    /// error.
    pub open spec fn consistent(self) -> bool {
        match self.status {
            DumpStatus::InProgress => self.finished_at.is_none() && self.error.is_none(),
            DumpStatus::Done => self.finished_at.is_some() && self.error.is_none(),
            DumpStatus::Failed => self.finished_at.is_some() && self.error.is_some(),
        }
    }
}

impl View for DumpInfo {
    type V = DumpInfoView;

    open spec fn view(&self) -> DumpInfoView {
        DumpInfoView {
            uid: self.uid@,
            status: self.status,
            error: match self.error {
                Some(e) => Some(e@),
                None => None,
            },
            started_at: self.started_at,
            finished_at: self.finished_at,
        }
    }
}

impl Clone for DumpInfo {
    fn clone(&self) -> (res: Self)
        ensures
            res@ == self@,
    {
        let error = match &self.error {
            Some(e) => Some(e.clone()),
            None => None,
        };
        DumpInfo {
            uid: self.uid.clone(),
            status: self.status,
            error,
            started_at: self.started_at,
            finished_at: self.finished_at,
        }
    }
}

impl DumpInfo {
    /// A record for a dump accepted at `started_at`. Every record starts
    /// out in progress.
    pub fn new(uid: String, started_at: i64) -> (res: Self)
        ensures
            res@ == DumpInfoView::started(uid@, started_at),
    {
        DumpInfo { uid, status: DumpStatus::InProgress, error: None, started_at, finished_at: None }
    }

    /// Marks the dump as failed at `now`, keeping the reason.
    pub fn with_error(&mut self, error: String, now: i64)
        ensures
            final(self)@ == old(self)@.with_error(error@, now),
    {
        self.status = DumpStatus::Failed;
        self.finished_at = Some(now);
        self.error = Some(error);
    }

    /// Marks the dump as done at `now`.
    pub fn done(&mut self, now: i64)
        ensures
            final(self)@ == old(self)@.done(now),
    {
        self.finished_at = Some(now);
        self.status = DumpStatus::Done;
    }

    /// Whether the dump is still running.
    pub fn dump_already_in_progress(&self) -> (res: bool)
        ensures
            res == self@.in_progress(),
    {
        match self.status {
            DumpStatus::InProgress => true,
            _ => false,
        }
    }
}

} // verus!
