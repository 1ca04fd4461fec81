//! The run controller: the active jobs in declaration order, and the
//! global halt-on-errors policy across jobs.
use vstd::prelude::*;

verus! {

pub open spec fn names_of(v: Seq<String>) -> Seq<Seq<char>> {
    v.map_values(|s: String| s@)
}

/// Whether `name` is among the active job names.
pub fn is_active(active: &Vec<String>, name: &String) -> (r: bool)
    ensures
        r == names_of(active@).contains(name@),
{
    let mut i: usize = 0;
    while i < active.len()
        invariant
            i <= active.len(),
            forall|k: int| 0 <= k < i ==> active@[k]@ != name@,
        decreases active.len() - i,
    {
        if active[i] == *name {
            proof {
                assert(names_of(active@)[i as int] == name@);
            }
            return true;
        }
        i = i + 1;
    }
    proof {
        if names_of(active@).contains(name@) {
            let k = choose|k: int| 0 <= k < names_of(active@).len() && names_of(active@)[k] == name@;
            assert(active@[k]@ == name@);
        }
    }
    false
}

/// How a run ended.
#[derive(Clone, Copy, Debug, PartialEq, Eq, Structural)]
pub enum RunOutcome {
    /// Every active job was run (some may have failed).
    Completed,
    /// The job at this index failed and the run halts on errors.
    Halted { job: usize },
}

/// The next thing the caller must do for the run.
#[derive(Clone, Copy, Debug, PartialEq, Eq)]
pub enum RunAction {
    /// Run the job at this index of the declaration order.
    RunJob { index: usize },
    Finished(RunOutcome),
}

/// The first active job at or after `from`, if any.
pub open spec fn first_active_from(names: Seq<Seq<char>>, active: Seq<Seq<char>>, from: int) -> Option<int>
    decreases names.len() - from,
{
    if from >= names.len() || from < 0 {
        None
    } else if active.contains(names[from]) {
        Some(from)
    } else {
        first_active_from(names, active, from + 1)
    }
}

/// A run going through the declared jobs.
#[derive(Clone, Copy, Debug, PartialEq, Eq)]
pub struct RunProgress {
    /// Jobs before this index have been considered.
    pub position: usize,
    pub halted: Option<usize>,
}

pub open spec fn run_action(names: Seq<Seq<char>>, active: Seq<Seq<char>>, p: RunProgress) -> RunAction {
    match p.halted {
        Some(j) => RunAction::Finished(RunOutcome::Halted { job: j }),
        None => match first_active_from(names, active, p.position as int) {
            Some(i) => RunAction::RunJob { index: i as usize },
            None => RunAction::Finished(RunOutcome::Completed),
        },
    }
}

impl RunProgress {
    pub fn new() -> (r: RunProgress)
        ensures
            r.position == 0,
            r.halted is None,
    {
        RunProgress { position: 0, halted: None }
    }

    /// The next job to run: the first one at or after the position whose
    /// name is active, unless the run halted.
    pub fn next_action(&self, job_names: &Vec<String>, active: &Vec<String>) -> (r: RunAction)
        ensures
            r == run_action(names_of(job_names@), names_of(active@), *self),
    {
        match self.halted {
            Some(j) => RunAction::Finished(RunOutcome::Halted { job: j }),
            None => {
                let mut i: usize = self.position;
                while i < job_names.len()
                    invariant
                        self.halted is None,
                        first_active_from(names_of(job_names@), names_of(active@), self.position as int)
                            == first_active_from(names_of(job_names@), names_of(active@), i as int),
                    decreases job_names.len() - i,
                {
                    proof {
                        assert(names_of(job_names@)[i as int] == job_names@[i as int]@);
                        assert(names_of(job_names@).len() == job_names@.len());
                    }
                    if is_active(active, &job_names[i]) {
                        assert(first_active_from(names_of(job_names@), names_of(active@), i as int) == Some(
                            i as int,
                        ));
                        return RunAction::RunJob { index: i };
                    }
                    i = i + 1;
                }
                RunAction::Finished(RunOutcome::Completed)
            },
        }
    }

    /// Records how the job at `index` ended: a failure halts the run when
    /// the global halt-on-errors flag is set; otherwise the run goes on.
    pub fn record(&mut self, index: usize, succeeded: bool, halt_on_errors: bool)
        requires
            index < usize::MAX,
        ensures
            final(self).position == index + 1,
            final(self).halted == if !succeeded && halt_on_errors {
                Some(index)
            } else {
                old(self).halted
            },
    {
        self.position = index + 1;
        if !succeeded && halt_on_errors {
            self.halted = Some(index);
        }
    }
}

} // verus!
