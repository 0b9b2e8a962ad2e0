//! What can go wrong with a dump, and how a dump task can end.

use vstd::prelude::*;

verus! {

/// The failures that callers can observe.
#[derive(Debug, PartialEq, Eq)]
pub enum DumpError {
    /// A dump was requested while another one is in flight.
    AlreadyRunning,
    /// No dump with this identifier was ever accepted.
    NotFound(String),
    /// The dump task returned a failure with this description.
    TaskFailed(String),
    /// The dump task ended abnormally instead of returning.
    TaskCrashed,
}

/// The mathematical value of a `DumpError`.
pub ghost enum DumpErrorView {
    AlreadyRunning,
    NotFound(Seq<char>),
    TaskFailed(Seq<char>),
    TaskCrashed,
}

impl View for DumpError {
    type V = DumpErrorView;

    open spec fn view(&self) -> DumpErrorView {
        match self {
            DumpError::AlreadyRunning => DumpErrorView::AlreadyRunning,
            DumpError::NotFound(uid) => DumpErrorView::NotFound(uid@),
            DumpError::TaskFailed(description) => DumpErrorView::TaskFailed(description@),
            DumpError::TaskCrashed => DumpErrorView::TaskCrashed,
        }
    }
}

/// How a dump task ended.
#[derive(Debug, PartialEq, Eq)]
pub enum TaskOutcome {
    /// The task returned normally and the dump is complete.
    Succeeded,
    /// The task returned a failure with this description.
    Failed(String),
    /// The task ended abnormally instead of returning.
    Crashed,
}

/// The mathematical value of a `TaskOutcome`.
pub ghost enum TaskOutcomeView {
    Succeeded,
    Failed(Seq<char>),
    Crashed,
}

impl View for TaskOutcome {
    type V = TaskOutcomeView;

    open spec fn view(&self) -> TaskOutcomeView {
        match self {
            TaskOutcome::Succeeded => TaskOutcomeView::Succeeded,
            TaskOutcome::Failed(description) => TaskOutcomeView::Failed(description@),
            TaskOutcome::Crashed => TaskOutcomeView::Crashed,
        }
    }
}

/// The message recorded for a dump whose task ended abnormally.
pub open spec fn crash_message() -> Seq<char> {
    "Unexpected error while performing dump."@
}

impl TaskOutcomeView {
    /// The message that a record keeps for this outcome: none for a success,
    /// the task's own description for a failure, a fixed text for a crash.
    pub open spec fn error_message(self) -> Option<Seq<char>> {
        match self {
            TaskOutcomeView::Succeeded => None,
            TaskOutcomeView::Failed(description) => Some(description),
            TaskOutcomeView::Crashed => Some(crash_message()),
        }
    }
}

impl TaskOutcomeView {
    /// The failure that this outcome stands for: none for a success.
    pub open spec fn error(self) -> Option<DumpErrorView> {
        match self {
            TaskOutcomeView::Succeeded => None,
            TaskOutcomeView::Failed(description) => Some(DumpErrorView::TaskFailed(description)),
            TaskOutcomeView::Crashed => Some(DumpErrorView::TaskCrashed),
        }
    }
}

impl TaskOutcome {
    /// The failure that this outcome stands for, if it is one.
    pub fn error(&self) -> (res: Option<DumpError>)
        ensures
            match res {
                Some(e) => self@.error() == Some(e@),
                None => self@.error().is_none(),
            },
    {
        match self {
            TaskOutcome::Succeeded => None,
            TaskOutcome::Failed(description) => Some(DumpError::TaskFailed(description.clone())),
            TaskOutcome::Crashed => Some(DumpError::TaskCrashed),
        }
    }

    /// The message that a record keeps for this outcome, if it is a failure.
    pub fn error_message(&self) -> (res: Option<String>)
        ensures
            match res {
                Some(message) => self@.error_message() == Some(message@),
                None => self@.error_message().is_none(),
            },
    {
        match self {
            TaskOutcome::Succeeded => None,
            TaskOutcome::Failed(description) => Some(description.clone()),
            TaskOutcome::Crashed => Some(
                String::from_str("Unexpected error while performing dump."),
            ),
        }
    }
}

} // verus!
