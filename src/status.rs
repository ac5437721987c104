use vstd::prelude::*;

verus! {

/// The furthest step of the scripted conversation that a session reached.
#[derive(Clone, Copy, Debug, PartialEq, Eq, Structural)]
pub enum Status {
    CheckingIn,
    Sleep,
    Upload,
    Download,
    Hostname,
    Netstat,
    ProcessList,
    Invoke,
    Shutdown,
    Done,
}

/// Number of steps, `Done` included.
pub const STEP_COUNT: usize = 10;

/// The position of a status in the script, from 0 for `CheckingIn` to 9 for `Done`.
pub open spec fn status_index(s: Status) -> nat {
    match s {
        Status::CheckingIn => 0,
        Status::Sleep => 1,
        Status::Upload => 2,
        Status::Download => 3,
        Status::Hostname => 4,
        Status::Netstat => 5,
        Status::ProcessList => 6,
        Status::Invoke => 7,
        Status::Shutdown => 8,
        Status::Done => 9,
    }
}

/// The status that follows `s` in the script; `Done` stays `Done`.
pub open spec fn next_status(s: Status) -> Status {
    match s {
        Status::CheckingIn => Status::Sleep,
        Status::Sleep => Status::Upload,
        Status::Upload => Status::Download,
        Status::Download => Status::Hostname,
        Status::Hostname => Status::Netstat,
        Status::Netstat => Status::ProcessList,
        Status::ProcessList => Status::Invoke,
        Status::Invoke => Status::Shutdown,
        Status::Shutdown => Status::Done,
        Status::Done => Status::Done,
    }
}

/// How one step of a session is shown: passed, failed, or never reached.
#[derive(Clone, Copy, Debug, PartialEq, Eq, Structural)]
pub enum Mark {
    Passed,
    Failed,
    Pending,
}

/// The mark of step `i` for a session that ended at `s`: the steps before it
/// passed, the step itself failed unless it is `Done`, the rest are pending.
pub open spec fn mark_at(s: Status, i: nat) -> Mark {
    if i < status_index(s) {
        Mark::Passed
    } else if i == status_index(s) {
        if s == Status::Done {
            Mark::Passed
        } else {
            Mark::Failed
        }
    } else {
        Mark::Pending
    }
}

impl Status {
    /// The position of this status in the script.
    pub fn index(self) -> (r: usize)
        ensures
            r == status_index(self),
    {
        match self {
            Status::CheckingIn => 0,
            Status::Sleep => 1,
            Status::Upload => 2,
            Status::Download => 3,
            Status::Hostname => 4,
            Status::Netstat => 5,
            Status::ProcessList => 6,
            Status::Invoke => 7,
            Status::Shutdown => 8,
            Status::Done => 9,
        }
    }

    /// The status that follows this one in the script.
    pub fn next(self) -> (r: Status)
        ensures
            r == next_status(self),
    {
        match self {
            Status::CheckingIn => Status::Sleep,
            Status::Sleep => Status::Upload,
            Status::Upload => Status::Download,
            Status::Download => Status::Hostname,
            Status::Hostname => Status::Netstat,
            Status::Netstat => Status::ProcessList,
            Status::ProcessList => Status::Invoke,
            Status::Invoke => Status::Shutdown,
            Status::Shutdown => Status::Done,
            Status::Done => Status::Done,
        }
    }

    /// One mark per step of the script, for a session that ended here.
    pub fn progress_marks(self) -> (r: Vec<Mark>)
        ensures
            r@.len() == STEP_COUNT,
            forall|i: int| 0 <= i < STEP_COUNT ==> r@[i] == mark_at(self, i as nat),
    {
        let n = self.index();
        let mut marks: Vec<Mark> = Vec::new();
        let mut i: usize = 0;
        while i < STEP_COUNT
            invariant
                n == status_index(self),
                i <= STEP_COUNT,
                marks@.len() == i,
                forall|j: int| 0 <= j < i ==> marks@[j] == mark_at(self, j as nat),
            decreases STEP_COUNT - i,
        {
            let m = if i < n {
                Mark::Passed
            } else if i == n {
                if self == Status::Done {
                    Mark::Passed
                } else {
                    Mark::Failed
                }
            } else {
                Mark::Pending
            };
            marks.push(m);
            i = i + 1;
        }
        marks
    }
}

} // verus!
