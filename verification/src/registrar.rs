//! The record of the crash-safe cleanup construct.
//!
//! The operating system's kill-on-close group is created and fed outside
//! this library. This module keeps what the supervisor has to know of it:
//! whether the group exists, which processes were put into it, and the
//! last diagnostic. No failure here is fatal: the explicit kill on exit
//! stays in place whatever happens to the group.

use vstd::prelude::*;
use vstd::string::StringExecFns;

verus! {

/// What is known of the kill-on-close group of this run.
#[derive(Debug)]
pub struct JobObjectState {
    job: bool,
    registered: Vec<u32>,
    error: Option<String>,
}

/// The mathematical value of a [`JobObjectState`].
pub struct JobObjectView {
    /// Whether the group exists.
    pub job: bool,
    /// The identifiers of the processes in the group, in the order in
    /// which they were put there.
    pub registered: Seq<u32>,
    /// The last diagnostic, if any.
    pub error: Option<Seq<char>>,
}

impl View for JobObjectState {
    type V = JobObjectView;

    closed spec fn view(&self) -> JobObjectView {
        JobObjectView {
            job: self.job,
            registered: self.registered@,
            error: match self.error {
                Some(e) => Some(e@),
                None => None,
            },
        }
    }
}

/// The view of the outcome of a call to the operating system.
pub open spec fn outcome_view(outcome: Result<(), String>) -> Result<(), Seq<char>> {
    match outcome {
        Ok(()) => Ok(()),
        Err(e) => Err(e@),
    }
}

/// The record right after the attempt to create the group.
pub open spec fn job_created(outcome: Result<(), Seq<char>>) -> JobObjectView {
    match outcome {
        Ok(()) => JobObjectView { job: true, registered: Seq::empty(), error: None },
        Err(reason) => JobObjectView {
            job: false,
            registered: Seq::empty(),
            error: Some("Failed to create job object: "@ + reason),
        },
    }
}

/// The record after the attempt to put process `pid` into the group.
/// Without a group nothing was attempted and nothing changes.
pub open spec fn job_assigned(
    state: JobObjectView,
    pid: u32,
    outcome: Result<(), Seq<char>>,
) -> JobObjectView {
    if !state.job {
        state
    } else {
        match outcome {
            Ok(()) => JobObjectView { registered: state.registered.push(pid), ..state },
            Err(reason) => JobObjectView {
                error: Some("Failed to assign process to job object: "@ + reason),
                ..state
            },
        }
    }
}

impl JobObjectState {
    /// The record for a run whose attempt to create the group ended in
    /// `outcome`.
    pub fn new(outcome: Result<(), String>) -> (state: JobObjectState)
        ensures
            state@ == job_created(outcome_view(outcome)),
    {
        match outcome {
            Ok(()) => JobObjectState { job: true, registered: Vec::new(), error: None },
            Err(reason) => {
                let mut message = String::from_str("Failed to create job object: ");
                message.append(reason.as_str());
                JobObjectState { job: false, registered: Vec::new(), error: Some(message) }
            },
        }
    }

    /// Whether there is a group to put processes into.
    pub fn has_job(&self) -> (yes: bool)
        ensures
            yes == self@.job,
    {
        self.job
    }

    /// The last diagnostic, if any.
    pub fn last_error(&self) -> (error: Option<String>)
        ensures
            match error {
                Some(e) => self@.error == Some(e@),
                None => self@.error is None,
            },
    {
        match &self.error {
            Some(e) => Some(e.clone()),
            None => None,
        }
    }

    /// Tells whether process `pid` was put into the group.
    pub fn is_registered(&self, pid: u32) -> (yes: bool)
        ensures
            yes == self@.registered.contains(pid),
    {
        let mut i: usize = 0;
        while i < self.registered.len()
            invariant
                i <= self.registered.len(),
                forall|k: int| 0 <= k < i ==> self.registered@[k] != pid,
            decreases self.registered.len() - i,
        {
            if self.registered[i] == pid {
                return true;
            }
            i += 1;
        }
        false
    }

    /// Records how the attempt to put process `pid` into the group ended.
    pub fn assign_pid(&mut self, pid: u32, outcome: Result<(), String>)
        ensures
            final(self)@ == job_assigned(old(self)@, pid, outcome_view(outcome)),
    {
        if !self.job {
            return;
        }
        match outcome {
            Ok(()) => {
                self.registered.push(pid);
            },
            Err(reason) => {
                let mut message = String::from_str("Failed to assign process to job object: ");
                message.append(reason.as_str());
                self.error = Some(message);
            },
        }
    }
}

} // verus!
