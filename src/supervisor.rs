//! The record of the worker's lifecycle and the decisions that change it.
//!
//! Starting and stopping each take two steps. `plan_start` / `plan_stop`
//! decide whether the outside action (launching, terminating) may happen and
//! say what it is; the caller performs it without holding the state, then
//! hands its outcome to `start_api_server` / `stop_api_server`, which decide
//! again against the state as it is then and commit.
use vstd::prelude::*;
use vstd::string::*;
use crate::error::WorkerError;
use crate::text::{decimal, push_decimal};

verus! {

/// The port recorded before any worker was started.
pub const DEFAULT_PORT: u16 = 8000;

/// The script the worker process runs.
pub const WORKER_SCRIPT: &'static str = "../examples/api_server.py";

/// What the supervisor knows of the worker.
pub struct ServerModel {
    pub running: bool,
    pub port: u16,
    /// Identity of the spawned worker process.
    pub process: Option<u32>,
}

/// An outside event that changes the recorded state: the outcome of a launch
/// for a requested port, or the outcome of a termination request.
pub enum Transition {
    Start(u16, Result<u32, String>),
    Stop(Result<(), String>),
}

impl ServerModel {
    /// A running worker has a recorded process and a non-zero port.
    pub open spec fn wf(self) -> bool {
        self.running ==> self.process is Some && self.port != 0
    }

    /// A start commits exactly when no worker runs and the launch succeeded.
    pub open spec fn start_succeeds(self, launch: Result<u32, String>) -> bool {
        !self.running && launch is Ok
    }

    /// A stop commits exactly when a worker runs and its termination succeeded.
    pub open spec fn stop_succeeds(self, termination: Result<(), String>) -> bool {
        self.running && termination is Ok
    }

    /// The state after a start for `port` whose launch ended with `launch`.
    pub open spec fn after_start(self, port: u16, launch: Result<u32, String>) -> ServerModel {
        if self.start_succeeds(launch) {
            ServerModel { running: true, port, process: Some(launch->Ok_0) }
        } else {
            self
        }
    }

    /// The state after a stop whose termination request ended with `termination`.
    pub open spec fn after_stop(self, termination: Result<(), String>) -> ServerModel {
        if self.stop_succeeds(termination) {
            ServerModel { running: false, port: self.port, process: None }
        } else {
            self
        }
    }

    pub open spec fn apply(self, t: Transition) -> ServerModel {
        match t {
            Transition::Start(port, launch) => self.after_start(port, launch),
            Transition::Stop(termination) => self.after_stop(termination),
        }
    }

    /// The state after the transitions `ts`, in order.
    pub open spec fn run(self, ts: Seq<Transition>) -> ServerModel
        decreases ts.len(),
    {
        if ts.len() == 0 {
            self
        } else {
            self.apply(ts[0]).run(ts.drop_first())
        }
    }
}

/// The numbers of starts and of stops among `ts` that commit, when they are
/// run in order from `m`.
pub open spec fn committed_counts(m: ServerModel, ts: Seq<Transition>) -> (nat, nat)
    decreases ts.len(),
{
    if ts.len() == 0 {
        (0, 0)
    } else {
        let rest = committed_counts(m.apply(ts[0]), ts.drop_first());
        match ts[0] {
            Transition::Start(_, launch) => if m.start_succeeds(launch) {
                (rest.0 + 1, rest.1)
            } else {
                rest
            },
            Transition::Stop(termination) => if m.stop_succeeds(termination) {
                (rest.0, rest.1 + 1)
            } else {
                rest
            },
        }
    }
}

/// The message returned by a successful start.
pub open spec fn started_message(port: u16) -> Seq<char> {
    "API server started on port "@ + decimal(port as nat)
}

/// The message returned by a successful stop.
pub open spec fn stopped_message() -> Seq<char> {
    "API server stopped"@
}

/// How the worker process is launched: an executable and its one argument.
pub struct LaunchCommand {
    pub program: String,
    pub script: String,
}

/// The executable that runs the worker script on the given platform.
pub open spec fn interpreter(windows: bool) -> Seq<char> {
    if windows {
        "python"@
    } else {
        "python3"@
    }
}

/// The command that launches the worker on the given platform.
pub fn launch_command(windows: bool) -> (r: LaunchCommand)
    ensures
        r.program@ == interpreter(windows),
        r.script@ == WORKER_SCRIPT@,
{
    let program = if windows {
        String::from_str("python")
    } else {
        String::from_str("python3")
    };
    LaunchCommand { program, script: String::from_str(WORKER_SCRIPT) }
}

/// The shared record of the worker: whether it runs, on which port, and which
/// process it is.
pub struct ApiServerState {
    running: bool,
    port: u16,
    process: Option<u32>,
}

impl View for ApiServerState {
    type V = ServerModel;

    closed spec fn view(&self) -> ServerModel {
        ServerModel { running: self.running, port: self.port, process: self.process }
    }
}

impl ApiServerState {
    /// The state before any worker was started.
    pub fn new() -> (r: ApiServerState)
        ensures
            r@ == (ServerModel { running: false, port: DEFAULT_PORT, process: None }),
            r@.wf(),
    {
        ApiServerState { running: false, port: DEFAULT_PORT, process: None }
    }

    /// Whether a worker is running.
    pub fn status(&self) -> (r: bool)
        ensures
            r == self@.running,
    {
        self.running
    }

    /// The recorded port; meaningful only while a worker runs.
    pub fn port(&self) -> (r: u16)
        ensures
            r == self@.port,
    {
        self.port
    }

    /// The identity of the running worker process, if any.
    pub fn process(&self) -> (r: Option<u32>)
        ensures
            r == self@.process,
    {
        self.process
    }

    /// Decides whether a worker may be launched, and how.
    pub fn plan_start(&self, windows: bool) -> (r: Result<LaunchCommand, WorkerError>)
        ensures
            self@.running ==> r == Err::<LaunchCommand, WorkerError>(WorkerError::AlreadyRunning),
            !self@.running ==> r is Ok && r->Ok_0.program@ == interpreter(windows)
                && r->Ok_0.script@ == WORKER_SCRIPT@,
    {
        if self.running {
            Err(WorkerError::AlreadyRunning)
        } else {
            Ok(launch_command(windows))
        }
    }

    /// Commits a start for `port` whose launch ended with `launch` (the
    /// process identity, or why the launch failed).
    pub fn start_api_server(&mut self, port: u16, launch: Result<u32, String>) -> (r: Result<
        String,
        WorkerError,
    >)
        requires
            old(self)@.wf(),
            port != 0,
        ensures
            final(self)@ == old(self)@.after_start(port, launch),
            final(self)@.wf(),
            r is Ok <==> old(self)@.start_succeeds(launch),
            r is Ok ==> r->Ok_0@ == started_message(port),
            old(self)@.running ==> r == Err::<String, WorkerError>(WorkerError::AlreadyRunning),
            !old(self)@.running && launch is Err ==> r == Err::<String, WorkerError>(
                WorkerError::LaunchFailed(launch->Err_0),
            ),
    {
        if self.running {
            return Err(WorkerError::AlreadyRunning);
        }
        match launch {
            Ok(pid) => {
                self.running = true;
                self.port = port;
                self.process = Some(pid);
                let mut msg = String::from_str("API server started on port ");
                push_decimal(&mut msg, port as u64);
                Ok(msg)
            },
            Err(detail) => Err(WorkerError::LaunchFailed(detail)),
        }
    }

    /// Decides whether the worker may be terminated, and which process that is.
    pub fn plan_stop(&self) -> (r: Result<u32, WorkerError>)
        requires
            self@.wf(),
        ensures
            !self@.running ==> r == Err::<u32, WorkerError>(WorkerError::NotRunning),
            self@.running ==> r is Ok && self@.process == Some(r->Ok_0),
    {
        if !self.running {
            return Err(WorkerError::NotRunning);
        }
        match self.process {
            Some(pid) => Ok(pid),
            None => Err(WorkerError::NotRunning),
        }
    }

    /// Commits a stop whose termination request ended with `termination`.
    pub fn stop_api_server(&mut self, termination: Result<(), String>) -> (r: Result<
        String,
        WorkerError,
    >)
        requires
            old(self)@.wf(),
        ensures
            final(self)@ == old(self)@.after_stop(termination),
            final(self)@.wf(),
            r is Ok <==> old(self)@.stop_succeeds(termination),
            r is Ok ==> r->Ok_0@ == stopped_message(),
            !old(self)@.running ==> r == Err::<String, WorkerError>(WorkerError::NotRunning),
            old(self)@.running && termination is Err ==> r == Err::<String, WorkerError>(
                WorkerError::TerminationFailed(termination->Err_0),
            ),
    {
        if !self.running {
            return Err(WorkerError::NotRunning);
        }
        match termination {
            Ok(()) => {
                self.running = false;
                self.process = None;
                Ok(String::from_str("API server stopped"))
            },
            Err(detail) => Err(WorkerError::TerminationFailed(detail)),
        }
    }
}

/// Every transition keeps the state well formed, as long as each start asks
/// for a non-zero port.
pub proof fn lemma_run_wf(m: ServerModel, ts: Seq<Transition>)
    requires
        m.wf(),
        forall|i: int|
            0 <= i < ts.len() ==> (#[trigger] ts[i] matches Transition::Start(p, _) ==> p != 0),
    ensures
        m.run(ts).wf(),
    decreases ts.len(),
{
    if ts.len() > 0 {
        assert(ts[0] matches Transition::Start(p, _) ==> p != 0);
        let rest = ts.drop_first();
        assert forall|i: int| 0 <= i < rest.len() implies (#[trigger] rest[i] matches Transition::Start(
            p,
            _,
        ) ==> p != 0) by {
            assert(rest[i] == ts[i + 1]);
        }
        lemma_run_wf(m.apply(ts[0]), rest);
    }
}

/// In every state exactly one of start and stop is accepted: given launches
/// and terminations that succeed, a start commits if and only if no worker
/// was running, and a stop commits if and only if one was.
pub proof fn lemma_call_windows(m: ServerModel, pid: u32)
    ensures
        m.start_succeeds(Ok(pid)) == !m.running,
        m.stop_succeeds(Ok(())) == m.running,
        m.start_succeeds(Ok(pid)) != m.stop_succeeds(Ok(())),
{
}

/// After a successful start for `port`, the worker is recorded as running on
/// `port` with the launched process, through any transitions that hold no
/// successful stop; a successful stop then leaves it not running.
pub proof fn lemma_started_until_stopped(
    m: ServerModel,
    port: u16,
    pid: u32,
    ts: Seq<Transition>,
)
    requires
        !m.running,
        forall|i: int|
            0 <= i < ts.len() ==> (#[trigger] ts[i] matches Transition::Stop(t) ==> t is Err),
    ensures
        m.after_start(port, Ok(pid)).run(ts) == (ServerModel {
            running: true,
            port,
            process: Some(pid),
        }),
        !m.after_start(port, Ok(pid)).run(ts).after_stop(Ok(())).running,
{
    let s = m.after_start(port, Ok(pid));
    lemma_running_kept(s, ts);
}

proof fn lemma_running_kept(s: ServerModel, ts: Seq<Transition>)
    requires
        s.running,
        forall|i: int|
            0 <= i < ts.len() ==> (#[trigger] ts[i] matches Transition::Stop(t) ==> t is Err),
    ensures
        s.run(ts) == s,
    decreases ts.len(),
{
    if ts.len() > 0 {
        assert(ts[0] matches Transition::Stop(t) ==> t is Err);
        let rest = ts.drop_first();
        assert forall|i: int| 0 <= i < rest.len() implies (#[trigger] rest[i] matches Transition::Stop(
            t,
        ) ==> t is Err) by {
            assert(rest[i] == ts[i + 1]);
        }
        assert(s.apply(ts[0]) == s);
        lemma_running_kept(s, rest);
    }
}

/// A second start without a stop in between is rejected and leaves the
/// recorded process and port of the first as they were.
pub proof fn lemma_second_start_rejected(
    m: ServerModel,
    port: u16,
    pid: u32,
    port2: u16,
    launch2: Result<u32, String>,
)
    requires
        !m.running,
    ensures
        !m.after_start(port, Ok(pid)).start_succeeds(launch2),
        m.after_start(port, Ok(pid)).after_start(port2, launch2) == m.after_start(port, Ok(pid)),
        m.after_start(port, Ok(pid)).after_start(port2, launch2).process == Some(pid),
        m.after_start(port, Ok(pid)).after_start(port2, launch2).port == port,
{
}

/// Committed starts and stops alternate, beginning with a start: run from a
/// state where no worker runs, there are as many committed stops as committed
/// starts or one fewer, and a worker runs exactly when there is one fewer.
pub proof fn lemma_commits_alternate(m: ServerModel, ts: Seq<Transition>)
    requires
        !m.running,
    ensures
        committed_counts(m, ts).1 <= committed_counts(m, ts).0 <= committed_counts(m, ts).1 + 1,
        m.run(ts).running == (committed_counts(m, ts).0 == committed_counts(m, ts).1 + 1),
{
    lemma_commit_balance(m, ts);
}

proof fn lemma_commit_balance(m: ServerModel, ts: Seq<Transition>)
    ensures
        ({
            let (a, b) = committed_counts(m, ts);
            let k: nat = if m.running { 1 } else { 0 };
            &&& b <= a + k <= b + 1
            &&& m.run(ts).running == (a + k == b + 1)
        }),
    decreases ts.len(),
{
    if ts.len() > 0 {
        lemma_commit_balance(m.apply(ts[0]), ts.drop_first());
    }
}

} // verus!
