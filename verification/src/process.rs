//! Process ids and their records, signals, the shutdown sequence and health checks.

use vstd::prelude::*;
use crate::numeric::{decimal, decimal_string, parse_u32, parse_u32_spec, is_digit};
use crate::text::{trim, trim_end, trim_start, trim_str, is_whitespace};

verus! {

/// The `i32` that `pid as i32` gives: `pid` itself, or `pid - 2^32` above `i32::MAX`.
pub open spec fn wrapped_i32(pid: u32) -> int {
    if pid <= 0x7fff_ffff {
        pid as int
    } else {
        pid as int - 0x1_0000_0000
    }
}

/// The process id handed to `kill` for `pid` (what `pid as i32` gives).
pub fn signal_target(pid: u32) -> (r: i32)
    ensures
        r as int == wrapped_i32(pid),
{
    if pid <= 0x7fff_ffff {
        pid as i32
    } else {
        ((pid - 0x8000_0000) as i32) - 0x7fff_ffff - 1
    }
}

/// The text a pid file holds for `pid`.
pub open spec fn pid_text(pid: u32) -> Seq<char> {
    decimal(pid as nat)
}

/// The pid a pid file with text `content` names: the text without surrounding white space,
/// read as a `u32`.
pub open spec fn pid_in_text(content: Seq<char>) -> Option<u32> {
    match parse_u32_spec(trim(content)) {
        Ok(p) => Some(p),
        Err(_) => None,
    }
}

/// The pid a pid file names; `None` when there is no readable file.
pub open spec fn pid_in_file(file: Option<Seq<char>>) -> Option<u32> {
    match file {
        Some(c) => pid_in_text(c),
        None => None,
    }
}

/// What a pid file holds for `pid`.
pub fn pid_file_contents(pid: u32) -> (r: String)
    ensures
        r@ == pid_text(pid),
{
    decimal_string(pid)
}

/// The pid named by the text of a pid file.
pub fn read_pid_text(content: &str) -> (r: Option<u32>)
    ensures
        r == pid_in_text(content@),
{
    match parse_u32(trim_str(content)) {
        Ok(p) => Some(p),
        Err(_) => None,
    }
}

/// The pid of a process whose pid file may be missing: the file's pid if it names one,
/// else the pid kept in memory.
pub open spec fn recorded_pid(file: Option<Seq<char>>, stored: u32) -> u32 {
    match pid_in_file(file) {
        Some(p) => p,
        None => stored,
    }
}

/// Digits are not white space, so trimming leaves a pid file's text as it is.
pub proof fn lemma_trim_decimal(pid: u32)
    ensures
        trim(pid_text(pid)) == pid_text(pid),
{
    crate::numeric::lemma_decimal_is_digits(pid as nat);
    let s = pid_text(pid);
    assert(is_digit(s[0]));
    assert(!is_whitespace(s[0]));
    assert(trim_start(s) == s);
    assert(is_digit(s.last()));
    assert(trim_end(s) == s);
}

/// What is written to a pid file reads back as the same pid, whatever pid was in memory.
pub proof fn lemma_pid_file_round_trip(pid: u32, stored: u32)
    ensures
        pid_in_text(pid_text(pid)) == Some(pid),
        recorded_pid(Some(pid_text(pid)), stored) == pid,
{
    lemma_trim_decimal(pid);
    crate::numeric::lemma_decimal_parses(pid as nat, false, 0, u32::MAX as int);
}

/// A signal the app sends to a process it started.
#[derive(Clone, Copy, Debug, PartialEq, Eq, Structural)]
pub enum Signal {
    /// Ask the process to end (`SIGTERM`).
    Terminate,
    /// End the process (`SIGKILL`).
    Kill,
}

/// Where a shutdown stands.
#[derive(Clone, Copy, Debug, PartialEq, Eq, Structural)]
pub enum StopStage {
    /// Ask the process to end.
    Terminate,
    /// Check whether it is still alive; `probes` checks have found it alive so far.
    Probe { probes: u32 },
    /// Wait before the next check, after `probes` checks found it alive.
    Pause { probes: u32 },
    /// Check once more after the waiting is over.
    FinalProbe,
    /// End it by force.
    Kill,
    /// Forget its pid.
    Release,
    /// Nothing more to do; `released` says whether the pid was forgotten.
    Finished { released: bool },
}

/// The next thing the app does for a shutdown.
#[derive(Clone, Copy, Debug, PartialEq, Eq, Structural)]
pub enum StopAction {
    /// Send the signal to the process id (the target of `kill`).
    Send(Signal, i32),
    /// Find out whether the process is alive, and hand the answer to `advance`.
    Probe(i32),
    /// Wait this many milliseconds.
    Sleep(u64),
    /// Forget the pid: clear it in memory, and remove the pid file if there is one.
    Release,
    /// The shutdown is over.
    Done,
}

/// How long the app waits between two checks of a process that is ending.
pub const STOP_POLL_MS: u64 = 100;

/// The shutdown of one process: ask it to end, check up to `probe_limit` times whether it
/// has, waiting after each check that finds it alive, then (when `escalate`) check once
/// more and kill it if it is still alive, and finally forget its pid. A pid of 0 names no
/// process and nothing is done.
#[derive(Clone, Copy, Debug, PartialEq, Eq, Structural)]
pub struct Shutdown {
    pub pid: u32,
    pub probe_limit: u32,
    pub escalate: bool,
    pub stage: StopStage,
}

impl Shutdown {
    /// The stage that follows the waiting loop.
    pub open spec fn after_waiting(self) -> StopStage {
        if self.escalate {
            StopStage::FinalProbe
        } else {
            StopStage::Release
        }
    }

    /// The stage after the current action, given whether a check found the process alive
    /// (ignored after other actions).
    pub open spec fn next_stage(self, alive: bool) -> StopStage {
        match self.stage {
            StopStage::Terminate => if self.probe_limit > 0 {
                StopStage::Probe { probes: 0 }
            } else {
                self.after_waiting()
            },
            StopStage::Probe { probes } => if alive {
                StopStage::Pause { probes: (probes + 1) as u32 }
            } else {
                self.after_waiting()
            },
            StopStage::Pause { probes } => if probes < self.probe_limit {
                StopStage::Probe { probes }
            } else {
                self.after_waiting()
            },
            StopStage::FinalProbe => if alive {
                StopStage::Kill
            } else {
                StopStage::Release
            },
            StopStage::Kill => StopStage::Release,
            StopStage::Release => StopStage::Finished { released: true },
            StopStage::Finished { released } => StopStage::Finished { released },
        }
    }

    /// The action the current stage calls for.
    pub open spec fn action_of(self) -> StopAction {
        let target = wrapped_i32(self.pid) as i32;
        match self.stage {
            StopStage::Terminate => StopAction::Send(Signal::Terminate, target),
            StopStage::Probe { .. } => StopAction::Probe(target),
            StopStage::Pause { .. } => StopAction::Sleep(STOP_POLL_MS),
            StopStage::FinalProbe => StopAction::Probe(target),
            StopStage::Kill => StopAction::Send(Signal::Kill, target),
            StopStage::Release => StopAction::Release,
            StopStage::Finished { .. } => StopAction::Done,
        }
    }

    /// The shapes a shutdown can be in.
    pub open spec fn well_formed(self) -> bool {
        &&& (self.pid == 0 <==> self.stage == StopStage::Finished { released: false })
        &&& (self.stage matches StopStage::Probe { probes } ==> probes < self.probe_limit)
        &&& (self.stage matches StopStage::Pause { probes } ==> 1 <= probes <= self.probe_limit)
        &&& (self.stage == StopStage::FinalProbe ==> self.escalate)
        &&& (self.stage == StopStage::Kill ==> self.escalate)
    }

    pub open spec fn is_finished(self) -> bool {
        self.stage is Finished
    }

    /// An upper bound on the actions left before `Done`.
    pub open spec fn steps_left(self) -> nat {
        match self.stage {
            StopStage::Terminate => (2 * self.probe_limit + 4) as nat,
            StopStage::Probe { probes } => (2 * (self.probe_limit - probes) + 3) as nat,
            StopStage::Pause { probes } => (2 * (self.probe_limit - probes) + 4) as nat,
            StopStage::FinalProbe => 3,
            StopStage::Kill => 2,
            StopStage::Release => 1,
            StopStage::Finished { .. } => 0,
        }
    }

    /// A shutdown of `pid` that checks up to `probe_limit` times and, when `escalate`, kills
    /// a process that outlives the checks.
    pub fn new(pid: u32, probe_limit: u32, escalate: bool) -> (s: Shutdown)
        ensures
            s.pid == pid,
            s.probe_limit == probe_limit,
            s.escalate == escalate,
            s.stage == (if pid == 0 { StopStage::Finished { released: false } } else { StopStage::Terminate }),
            s.well_formed(),
    {
        let stage = if pid == 0 { StopStage::Finished { released: false } } else { StopStage::Terminate };
        Shutdown { pid, probe_limit, escalate, stage }
    }

    /// What the app does next.
    pub fn action(&self) -> (a: StopAction)
        ensures
            a == self.action_of(),
    {
        let target = signal_target(self.pid);
        match self.stage {
            StopStage::Terminate => StopAction::Send(Signal::Terminate, target),
            StopStage::Probe { .. } => StopAction::Probe(target),
            StopStage::Pause { .. } => StopAction::Sleep(STOP_POLL_MS),
            StopStage::FinalProbe => StopAction::Probe(target),
            StopStage::Kill => StopAction::Send(Signal::Kill, target),
            StopStage::Release => StopAction::Release,
            StopStage::Finished { .. } => StopAction::Done,
        }
    }

    /// The shutdown after the current action was carried out; `alive` is the answer of a
    /// check and is ignored after other actions.
    pub fn advance(self, alive: bool) -> (s: Shutdown)
        requires
            self.well_formed(),
        ensures
            s == (Shutdown { stage: self.next_stage(alive), ..self }),
    {
        let after = if self.escalate { StopStage::FinalProbe } else { StopStage::Release };
        let stage = match self.stage {
            StopStage::Terminate => if self.probe_limit > 0 {
                StopStage::Probe { probes: 0 }
            } else {
                after
            },
            StopStage::Probe { probes } => if alive {
                StopStage::Pause { probes: probes + 1 }
            } else {
                after
            },
            StopStage::Pause { probes } => if probes < self.probe_limit {
                StopStage::Probe { probes }
            } else {
                after
            },
            StopStage::FinalProbe => if alive {
                StopStage::Kill
            } else {
                StopStage::Release
            },
            StopStage::Kill => StopStage::Release,
            StopStage::Release => StopStage::Finished { released: true },
            StopStage::Finished { released } => StopStage::Finished { released },
        };
        Shutdown { stage, ..self }
    }
}

/// Every step of a shutdown keeps it well formed and, until it is finished, brings it
/// closer to the end: a shutdown always ends, after at most `2 * probe_limit + 4` actions.
pub proof fn lemma_shutdown_progress(s: Shutdown, alive: bool)
    requires
        s.well_formed(),
    ensures
        (Shutdown { stage: s.next_stage(alive), ..s }).well_formed(),
        !s.is_finished() ==> (Shutdown { stage: s.next_stage(alive), ..s }).steps_left() < s.steps_left(),
        s.is_finished() ==> s.next_stage(alive) == s.stage,
{
}

/// The actions a shutdown takes from `s` on, when its checks are answered by `answers` in
/// order (an answer that is not there counts as "not alive"); the last one is `Done`.
pub open spec fn run_actions(s: Shutdown, answers: Seq<bool>) -> Seq<StopAction>
    decreases s.steps_left(),
{
    if !s.well_formed() || s.is_finished() {
        seq![s.action_of()]
    } else {
        let alive = if answers.len() > 0 { answers[0] } else { false };
        let rest = if answers.len() > 0 { answers.drop_first() } else { answers };
        proof {
            lemma_shutdown_progress(s, alive);
        }
        seq![s.action_of()] + run_actions(Shutdown { stage: s.next_stage(alive), ..s }, rest)
    }
}

/// A shutdown reaches its end only through forgetting the pid: from any stage but
/// `Release` and `Finished`, a step never finishes it.
pub proof fn lemma_only_release_finishes(s: Shutdown, alive: bool)
    requires
        s.well_formed(),
        !(s.stage is Release),
        !(s.stage is Finished),
    ensures
        !(s.next_stage(alive) is Finished),
{
}

proof fn lemma_run_from_unfinished(s: Shutdown, answers: Seq<bool>)
    requires
        s.well_formed(),
        !s.is_finished(),
    ensures
        run_actions(s, answers).len() >= 2,
        run_actions(s, answers)[run_actions(s, answers).len() - 1] == StopAction::Done,
        run_actions(s, answers)[run_actions(s, answers).len() - 2] == StopAction::Release,
        forall|i: int| 0 <= i < run_actions(s, answers).len() - 2 ==>
            #[trigger] run_actions(s, answers)[i] != StopAction::Release && run_actions(s, answers)[i] != StopAction::Done,
    decreases s.steps_left(),
{
    let alive = if answers.len() > 0 { answers[0] } else { false };
    let rest = if answers.len() > 0 { answers.drop_first() } else { answers };
    let next = Shutdown { stage: s.next_stage(alive), ..s };
    lemma_shutdown_progress(s, alive);
    let r = run_actions(s, answers);
    assert(r == seq![s.action_of()] + run_actions(next, rest));
    if s.stage is Release {
        assert(next.is_finished());
        assert(run_actions(next, rest) == seq![StopAction::Done]);
        assert(r =~= seq![StopAction::Release, StopAction::Done]);
    } else {
        lemma_only_release_finishes(s, alive);
        lemma_run_from_unfinished(next, rest);
        let t = run_actions(next, rest);
        assert(s.action_of() != StopAction::Release && s.action_of() != StopAction::Done);
        assert forall|i: int| 0 <= i < r.len() - 2 implies #[trigger] r[i] != StopAction::Release && r[i] != StopAction::Done by {
            if i > 0 {
                assert(r[i] == t[i - 1]);
            }
        }
        assert(r[r.len() - 1] == t[t.len() - 1]);
        assert(r[r.len() - 2] == t[t.len() - 2]);
    }
}

/// Every shutdown of a process (a pid other than 0), whatever its checks find, ends by
/// forgetting the pid, once, just before it is done; a shutdown of pid 0 does nothing.
pub proof fn lemma_shutdown_always_releases_once(pid: u32, probe_limit: u32, escalate: bool, answers: Seq<bool>)
    ensures
        pid != 0 ==> {
            let r = run_actions(Shutdown { pid, probe_limit, escalate, stage: StopStage::Terminate }, answers);
            &&& r.len() >= 2
            &&& r[r.len() - 1] == StopAction::Done
            &&& r[r.len() - 2] == StopAction::Release
            &&& forall|i: int| 0 <= i < r.len() - 2 ==> #[trigger] r[i] != StopAction::Release && r[i] != StopAction::Done
        },
        pid == 0 ==> run_actions(Shutdown { pid, probe_limit, escalate, stage: StopStage::Finished { released: false } }, answers)
            == seq![StopAction::Done],
{
    if pid != 0 {
        lemma_run_from_unfinished(Shutdown { pid, probe_limit, escalate, stage: StopStage::Terminate }, answers);
    }
}

/// A finished shutdown has forgotten the pid exactly when there was a process to stop.
pub proof fn lemma_shutdown_releases_started_processes(s: Shutdown)
    requires
        s.well_formed(),
        s.is_finished(),
    ensures
        s.stage == (StopStage::Finished { released: s.pid != 0 }),
{
}

/// A process is killed only when the check after the waiting found it still alive, and
/// only in a shutdown that escalates.
pub proof fn lemma_kill_only_after_final_check(s: Shutdown, alive: bool)
    requires
        s.well_formed(),
        s.next_stage(alive) == StopStage::Kill,
    ensures
        s.stage == StopStage::FinalProbe,
        alive,
        s.escalate,
{
}

/// The first action for a process is to ask it to end.
pub proof fn lemma_terminate_first(pid: u32, probe_limit: u32, escalate: bool)
    requires
        pid != 0,
    ensures
        (Shutdown { pid, probe_limit, escalate, stage: StopStage::Terminate }).action_of()
            == StopAction::Send(Signal::Terminate, wrapped_i32(pid) as i32),
{
}

/// What to do after one look at a server that is starting.
#[derive(Clone, Copy, Debug, PartialEq, Eq, Structural)]
pub enum HealthVerdict {
    /// The deadline has passed; stop waiting (the server is left running).
    TimedOut,
    /// The server accepts connections.
    Passed,
    /// Wait this many milliseconds and look again.
    RetryAfter(u64),
}

/// Waiting for a server to accept connections: up to `timeout_ms`, looking every
/// `interval_ms`.
#[derive(Clone, Copy, Debug, PartialEq, Eq, Structural)]
pub struct HealthCheck {
    pub timeout_ms: u64,
    pub interval_ms: u64,
}

impl HealthCheck {
    /// Whether the deadline has passed after `elapsed_ms`; once it has, the app does not try
    /// to connect again.
    pub fn deadline_passed(&self, elapsed_ms: u64) -> (r: bool)
        ensures
            r == (elapsed_ms > self.timeout_ms),
    {
        elapsed_ms > self.timeout_ms
    }

    /// The verdict after `elapsed_ms`, where `connected` says whether a connection was made
    /// (and is ignored once the deadline has passed).
    pub fn verdict(&self, elapsed_ms: u64, connected: bool) -> (v: HealthVerdict)
        ensures
            v == (if elapsed_ms > self.timeout_ms {
                HealthVerdict::TimedOut
            } else if connected {
                HealthVerdict::Passed
            } else {
                HealthVerdict::RetryAfter(self.interval_ms)
            }),
    {
        if elapsed_ms > self.timeout_ms {
            HealthVerdict::TimedOut
        } else if connected {
            HealthVerdict::Passed
        } else {
            HealthVerdict::RetryAfter(self.interval_ms)
        }
    }
}

/// Waiting for a model server: 20 s, looking every 500 ms.
pub fn model_server_health() -> (h: HealthCheck)
    ensures
        h.timeout_ms == 20_000,
        h.interval_ms == 500,
{
    HealthCheck { timeout_ms: 20_000, interval_ms: 500 }
}

/// Waiting for the daemon: 10 s, looking every 200 ms.
pub fn daemon_health() -> (h: HealthCheck)
    ensures
        h.timeout_ms == 10_000,
        h.interval_ms == 200,
{
    HealthCheck { timeout_ms: 10_000, interval_ms: 200 }
}

} // verus!
