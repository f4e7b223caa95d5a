//! Starting and finishing a test run: one run at a time, and none without
//! models to test.
use vstd::prelude::*;

verus! {

/// Whether a test run is under way.
pub struct RunGate {
    pub running: bool,
}

/// What asking for a run answers, and whether a run is then under way: a run
/// under way refuses the request and goes on; with no models there is no run;
/// otherwise a run starts.
pub open spec fn start_spec(running: bool, model_count: nat) -> (Result<Seq<char>, Seq<char>>, bool) {
    if running {
        (Err("Test already running"@), true)
    } else if model_count == 0 {
        (Err("No models configured"@), false)
    } else {
        (Ok("Test started"@), true)
    }
}

pub open spec fn answer_view(r: Result<String, String>) -> Result<Seq<char>, Seq<char>> {
    match r {
        Ok(s) => Ok(s@),
        Err(e) => Err(e@),
    }
}

impl RunGate {
    /// No run under way.
    pub fn new() -> (r: RunGate)
        ensures
            !r.running,
    {
        RunGate { running: false }
    }

    /// Asks to start a run over `model_count` models.
    pub fn start(&mut self, model_count: usize) -> (r: Result<String, String>)
        ensures
            (answer_view(r), final(self).running) == start_spec(old(self).running, model_count as nat),
    {
        if self.running {
            return Err(String::from_str("Test already running"));
        }
        self.running = true;
        if model_count == 0 {
            self.running = false;
            return Err(String::from_str("No models configured"));
        }
        Ok(String::from_str("Test started"))
    }

    /// The run under way has finished.
    pub fn finish(&mut self)
        ensures
            !final(self).running,
    {
        self.running = false;
    }

    pub fn is_running(&self) -> (r: bool)
        ensures
            r == self.running,
    {
        self.running
    }
}

/// One run at a time: a run that was started refuses every further start
/// until it finishes, and a refused start changes nothing; once finished, a
/// run over some models starts again.
pub proof fn law_one_run_at_a_time(running: bool, first: nat, second: nat)
    ensures
        start_spec(running, first).0 is Ok ==> start_spec(start_spec(running, first).1, second).0
            is Err && start_spec(start_spec(running, first).1, second).1,
        start_spec(running, first).0 is Err ==> start_spec(running, first).1 == (running
            && true),
        second > 0 ==> start_spec(false, second).0 is Ok && start_spec(false, second).1,
{
}

} // verus!
