//! The lifecycle of a generation job: its states and the moves between them.

use vstd::prelude::*;
use crate::text::str_eq;

verus! {

/// Where a generation job stands. A job starts `Queued`, advances one stage at a
/// time and ends `Completed` or `Failed`.
#[derive(Clone, Copy, Debug, PartialEq, Eq, Structural)]
pub enum JobStatus {
    Queued,
    Processing,
    Rendering,
    Uploading,
    Completed,
    Failed,
}

impl JobStatus {
    /// The name under which a status is stored and published.
    pub open spec fn text(self) -> Seq<char> {
        match self {
            JobStatus::Queued => "queued"@,
            JobStatus::Processing => "processing"@,
            JobStatus::Rendering => "rendering"@,
            JobStatus::Uploading => "uploading"@,
            JobStatus::Completed => "completed"@,
            JobStatus::Failed => "failed"@,
        }
    }

    /// `Completed` and `Failed` end a job.
    pub open spec fn is_terminal(self) -> bool {
        self == JobStatus::Completed || self == JobStatus::Failed
    }

    /// Work on the job has begun: every status but `Queued`.
    pub open spec fn has_started(self) -> bool {
        self != JobStatus::Queued
    }

    /// The position of a status on the way to completion.
    pub open spec fn rank(self) -> int {
        match self {
            JobStatus::Queued => 0,
            JobStatus::Processing => 1,
            JobStatus::Rendering => 2,
            JobStatus::Uploading => 3,
            JobStatus::Completed => 4,
            JobStatus::Failed => 4,
        }
    }

    /// The moves a job may make: one stage forward, or to `Failed` from a stage
    /// in which work is under way.
    pub open spec fn can_transition_to(self, next: JobStatus) -> bool {
        match (self, next) {
            (JobStatus::Queued, JobStatus::Processing) => true,
            (JobStatus::Processing, JobStatus::Rendering) => true,
            (JobStatus::Rendering, JobStatus::Uploading) => true,
            (JobStatus::Uploading, JobStatus::Completed) => true,
            (JobStatus::Processing, JobStatus::Failed) => true,
            (JobStatus::Rendering, JobStatus::Failed) => true,
            (JobStatus::Uploading, JobStatus::Failed) => true,
            _ => false,
        }
    }

    pub fn as_str(&self) -> (name: &'static str)
        ensures
            name@ == self.text(),
    {
        match self {
            JobStatus::Queued => "queued",
            JobStatus::Processing => "processing",
            JobStatus::Rendering => "rendering",
            JobStatus::Uploading => "uploading",
            JobStatus::Completed => "completed",
            JobStatus::Failed => "failed",
        }
    }

    /// The status stored under a name, if the name is one of the six.
    pub fn parse(name: &str) -> (status: Option<JobStatus>)
        ensures
            match status {
                Some(s) => s.text() == name@,
                None => forall|s: JobStatus| s.text() != name@,
            },
    {
        if str_eq(name, "queued") {
            Some(JobStatus::Queued)
        } else if str_eq(name, "processing") {
            Some(JobStatus::Processing)
        } else if str_eq(name, "rendering") {
            Some(JobStatus::Rendering)
        } else if str_eq(name, "uploading") {
            Some(JobStatus::Uploading)
        } else if str_eq(name, "completed") {
            Some(JobStatus::Completed)
        } else if str_eq(name, "failed") {
            Some(JobStatus::Failed)
        } else {
            None
        }
    }

    pub fn terminal(&self) -> (yes: bool)
        ensures
            yes == self.is_terminal(),
    {
        match self {
            JobStatus::Completed => true,
            JobStatus::Failed => true,
            _ => false,
        }
    }

    pub fn may_become(&self, next: JobStatus) -> (yes: bool)
        ensures
            yes == self.can_transition_to(next),
    {
        match (*self, next) {
            (JobStatus::Queued, JobStatus::Processing) => true,
            (JobStatus::Processing, JobStatus::Rendering) => true,
            (JobStatus::Rendering, JobStatus::Uploading) => true,
            (JobStatus::Uploading, JobStatus::Completed) => true,
            (JobStatus::Processing, JobStatus::Failed) => true,
            (JobStatus::Rendering, JobStatus::Failed) => true,
            (JobStatus::Uploading, JobStatus::Failed) => true,
            _ => false,
        }
    }
}

/// The statuses from which a job may move to `status`, in the order of the
/// lifecycle.
pub fn allowed_previous(status: JobStatus) -> (previous: Vec<JobStatus>)
    ensures
        forall|from: JobStatus| previous@.contains(from) <==> from.can_transition_to(status),
{
    let mut previous: Vec<JobStatus> = Vec::new();
    match status {
        JobStatus::Queued => {},
        JobStatus::Processing => {
            previous.push(JobStatus::Queued);
        },
        JobStatus::Rendering => {
            previous.push(JobStatus::Processing);
        },
        JobStatus::Uploading => {
            previous.push(JobStatus::Rendering);
        },
        JobStatus::Completed => {
            previous.push(JobStatus::Uploading);
        },
        JobStatus::Failed => {
            previous.push(JobStatus::Processing);
            previous.push(JobStatus::Rendering);
            previous.push(JobStatus::Uploading);
        },
    }
    assert forall|from: JobStatus| previous@.contains(from) <==> from.can_transition_to(
        status,
    ) by {
        if from.can_transition_to(status) {
            if status == JobStatus::Failed {
                assert(previous@[0] == JobStatus::Processing);
                assert(previous@[1] == JobStatus::Rendering);
                assert(previous@[2] == JobStatus::Uploading);
            } else {
                assert(previous@[0] == from);
            }
        }
    }
    previous
}

/// The names of the six statuses differ from one another.
pub proof fn lemma_status_names_distinct(a: JobStatus, b: JobStatus)
    requires
        a.text() == b.text(),
    ensures
        a == b,
{
    reveal_strlit("queued");
    reveal_strlit("processing");
    reveal_strlit("rendering");
    reveal_strlit("uploading");
    reveal_strlit("completed");
    reveal_strlit("failed");
    if a != b {
        let ta = a.text();
        let tb = b.text();
        assert(ta.len() == tb.len());
        assert(ta[0] == tb[0]);
    }
}

/// No move leaves a terminal status, none returns to or stays at a status, and
/// none skips a stage: a move to a working status goes exactly one stage on.
pub proof fn lemma_transitions_forward(from: JobStatus, to: JobStatus)
    requires
        from.can_transition_to(to),
    ensures
        !from.is_terminal(),
        from != to,
        to != JobStatus::Queued,
        to != JobStatus::Failed ==> to.rank() == from.rank() + 1,
        to == JobStatus::Failed ==> from == JobStatus::Processing || from == JobStatus::Rendering
            || from == JobStatus::Uploading,
{
}

} // verus!
