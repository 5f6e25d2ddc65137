//! Starting the daemon on the device, step by step: the app carries out each action and
//! reports what happened; the decisions between the steps are taken here.

use vstd::prelude::*;
use crate::android::{
    bin_dir, daemon_env_spec, daemon_log_path, default_daemon_path, missing_daemon_message, debug_text, models_dir,
    named_daemon_path, pairs_view, pid_path, planned_servers, required_dirs, strings_view, command_is, server_port,
    server_extra_args, server_log_suffix, llama_program, AndroidManager, DaemonBinary, LlamaLaunch, ModelServer,
    DAEMON_FILE_MODE,
};
use crate::paths::join_path;
use crate::process::{daemon_health, pid_file_contents, pid_text, HealthCheck};

verus! {

/// What happened when the app carried out a startup action.
pub enum StartEvent {
    /// Whether the daemon already runs (after `CheckRunning`).
    Running(bool),
    /// Whether the model server's program is a file (after `CheckModelServerBinary`).
    Present(bool),
    /// The action succeeded (after creating directories, launching a model server,
    /// installing the daemon, recording its pid, or waiting for it).
    Done,
    /// The action failed, with this error.
    Failed(String),
    /// The file names in the models directory, in listing order; empty when there is no
    /// such directory (after `ListModels`).
    Listing(Vec<String>),
    /// Whether each of the two daemon paths is a file, and the bundled daemon if there is
    /// one (after `LocateDaemon`).
    DaemonFiles { plain_is_file: bool, named_is_file: bool, bundled: Option<String> },
    /// The daemon was started with this pid (after `SpawnDaemon`).
    Spawned(u32),
}

/// The next thing the app does to start the daemon.
pub enum StartAction {
    /// Find out whether the daemon already runs.
    CheckRunning,
    /// Create these directories.
    CreateDirs(Vec<String>),
    /// List the file names in this directory.
    ListModels(String),
    /// Find out whether the program of the model server `server` is a file.
    CheckModelServerBinary { server: ModelServer, program: String },
    /// Start this model server and wait for it (its failures do not stop the startup).
    LaunchModelServer(LlamaLaunch),
    /// Find out whether these two paths are files, and look for a bundled daemon.
    LocateDaemon { plain: String, named: String },
    /// Create `dir`, copy `from` to `to` and give it the file mode `mode`.
    InstallDaemon { from: String, to: String, dir: String, mode: u32 },
    /// Start `program` with the environment `env`, logging to `log_path`.
    SpawnDaemon { program: String, env: Vec<(String, String)>, log_path: String },
    /// Keep `pid` in memory and write `contents` to the pid file `pid_path`.
    RecordPid { pid: u32, pid_path: String, contents: String },
    /// Wait for the daemon to accept connections on `port`.
    AwaitDaemon { port: u16, check: HealthCheck },
    /// The startup is over, with this result.
    Finish(Result<(), String>),
}

/// Where a startup stands.
pub enum StartStage {
    CheckRunning,
    CreateDirs,
    ListModels,
    /// Check the program of `current`; `pending` are the model servers after it.
    CheckModelServer { current: LlamaLaunch, pending: Vec<LlamaLaunch> },
    /// Launch the model server whose program is there; `pending` come after it.
    LaunchModelServer { pending: Vec<LlamaLaunch> },
    LocateDaemon,
    InstallDaemon { program: String },
    SpawnDaemon,
    RecordPid,
    AwaitDaemon,
    Finished,
}

/// A startup of the daemon with data directory `data`, platform target name `target`, whose
/// health is checked on `port`.
pub struct Startup {
    pub data: String,
    pub target: String,
    pub port: u16,
    pub stage: StartStage,
}

impl StartStage {
    pub open spec fn rank(&self) -> nat {
        match self {
            StartStage::CheckRunning => 12,
            StartStage::CreateDirs => 11,
            StartStage::ListModels => 10,
            StartStage::CheckModelServer { pending, .. } => 7 + 2 * pending@.len(),
            StartStage::LaunchModelServer { pending } => 6 + 2 * pending@.len(),
            StartStage::LocateDaemon => 5,
            StartStage::InstallDaemon { .. } => 4,
            StartStage::SpawnDaemon => 3,
            StartStage::RecordPid => 2,
            StartStage::AwaitDaemon => 1,
            StartStage::Finished => 0,
        }
    }
}

/// Whether `a` ends the startup with `outcome`.
pub open spec fn finishes_with(a: StartAction, outcome: Result<(), String>) -> bool {
    match a {
        StartAction::Finish(o) => o == outcome,
        _ => false,
    }
}

impl Startup {
    /// After the listing, the program of the first planned model server is checked and the
    /// others are pending, in order; with none planned, the daemon is located.
    pub open spec fn check_or_locate(&self, plan: Seq<(ModelServer, Seq<char>)>, next: StartStage, a: StartAction) -> bool {
        if plan.len() == 0 {
            next is LocateDaemon && self.locate_action(a)
        } else {
            match (next, a) {
                (StartStage::CheckModelServer { current, pending }, StartAction::CheckModelServerBinary { server, program }) => {
                    &&& pending@.len() == plan.len() - 1
                    &&& current.server == plan[0].0
                    &&& command_is(current.command, self.data@, plan[0].1, server_port(current.server), server_extra_args(current.server), server_log_suffix(current.server))
                    &&& server == plan[0].0
                    &&& program@ == llama_program(self.data@)
                    &&& forall|i: int| 0 <= i < pending@.len() ==> {
                        let (server, model) = #[trigger] plan[i + 1];
                        &&& pending@[i].server == server
                        &&& command_is(pending@[i].command, self.data@, model, server_port(server), server_extra_args(server), server_log_suffix(server))
                    }
                },
                _ => false,
            }
        }
    }

    /// The step after a model server is done with: the program of the next pending one is
    /// checked, or, when none is left, the daemon is located.
    pub open spec fn next_server(&self, pending: Seq<LlamaLaunch>, next: StartStage, a: StartAction) -> bool {
        if pending.len() == 0 {
            next is LocateDaemon && self.locate_action(a)
        } else {
            match (next, a) {
                (StartStage::CheckModelServer { current, pending: rest }, StartAction::CheckModelServerBinary { server, program }) =>
                    current == pending[0] && rest@ == pending.drop_first() && server == current.server
                    && program@ == current.command.program@,
                _ => false,
            }
        }
    }

    /// The shapes a startup can be in.
    pub open spec fn well_formed(&self) -> bool {
        &&& (self.stage matches StartStage::CheckModelServer { pending, .. } ==> pending@.len() <= 1)
        &&& (self.stage matches StartStage::LaunchModelServer { pending } ==> pending@.len() <= 1)
    }

    /// Whether `event` is an answer to the current action.
    pub open spec fn accepts(&self, event: &StartEvent) -> bool {
        match self.stage {
            StartStage::CheckRunning => event is Running,
            StartStage::CreateDirs => event is Done || event is Failed,
            StartStage::ListModels => event is Listing,
            StartStage::CheckModelServer { .. } => event is Present,
            StartStage::LaunchModelServer { .. } => event is Done,
            StartStage::LocateDaemon => event is DaemonFiles,
            StartStage::InstallDaemon { .. } => event is Done || event is Failed,
            StartStage::SpawnDaemon => event is Spawned || event is Failed,
            StartStage::RecordPid => event is Done || event is Failed,
            StartStage::AwaitDaemon => event is Done,
            StartStage::Finished => false,
        }
    }

    /// The action that locates the daemon binary.
    pub open spec fn locate_action(&self, a: StartAction) -> bool {
        match a {
            StartAction::LocateDaemon { plain, named } => plain@ == default_daemon_path(self.data@)
                && named@ == named_daemon_path(self.data@, self.target@),
            _ => false,
        }
    }

    /// The action that starts `program` as the daemon.
    pub open spec fn spawn_action(&self, a: StartAction, program: Seq<char>) -> bool {
        match a {
            StartAction::SpawnDaemon { program: p, env, log_path } => p@ == program
                && pairs_view(env@) == daemon_env_spec(self.data@) && log_path@ == daemon_log_path(self.data@),
            _ => false,
        }
    }

    fn locate(&self) -> (a: StartAction)
        ensures
            self.locate_action(a),
    {
        let (plain, named) = AndroidManager.daemon_binary_paths(self.data.as_str(), self.target.as_str());
        StartAction::LocateDaemon { plain, named }
    }

    fn spawn(&self, program: String) -> (a: StartAction)
        ensures
            self.spawn_action(a, program@),
    {
        let env = AndroidManager.daemon_env(self.data.as_str());
        let log_path = AndroidManager.daemon_log_file(self.data.as_str());
        StartAction::SpawnDaemon { program, env, log_path }
    }

    /// Takes up the first of `pending`, checking its program, or locates the daemon when
    /// none is left.
    fn next_model_server(me: Startup, pending: Vec<LlamaLaunch>) -> (r: (Startup, StartAction))
        requires
            pending@.len() <= 2,
        ensures
            r.0.well_formed(),
            r.0.data == me.data && r.0.target == me.target && r.0.port == me.port,
            me.next_server(pending@, r.0.stage, r.1),
            r.0.stage.rank() <= 5 + 2 * pending@.len(),
    {
        let mut pending = pending;
        if pending.len() == 0 {
            let a = me.locate();
            (Startup { stage: StartStage::LocateDaemon, ..me }, a)
        } else {
            let ghost whole = pending@;
            let current = pending.remove(0);
            assert(pending@ =~= whole.drop_first());
            let server = current.server;
            let program = current.command.program.clone();
            (
                Startup { stage: StartStage::CheckModelServer { current, pending }, ..me },
                StartAction::CheckModelServerBinary { server, program },
            )
        }
    }

    /// Carries the startup past the current action, given what came of it, and says what to
    /// do next.
    pub fn advance(self, event: StartEvent) -> (r: (Startup, StartAction))
        requires
            self.well_formed(),
            self.accepts(&event),
        ensures
            r.0.well_formed(),
            r.0.data == self.data && r.0.target == self.target && r.0.port == self.port,
            r.0.stage.rank() < self.stage.rank(),
            // Any failure ends the startup with that error.
            match event {
                StartEvent::Failed(e) => r.0.stage is Finished && finishes_with(r.1, Err(e)),
                _ => true,
            },
            // A daemon that already runs is left as it is.
            self.stage is CheckRunning && event == StartEvent::Running(true) ==> r.0.stage is Finished
                && finishes_with(r.1, Ok(())),
            self.stage is CheckRunning && event == StartEvent::Running(false) ==> r.0.stage is CreateDirs
                && match r.1 {
                StartAction::CreateDirs(d) => strings_view(d@) == required_dirs(self.data@),
                _ => false,
            },
            self.stage is CreateDirs && event is Done ==> r.0.stage is ListModels && match r.1 {
                StartAction::ListModels(m) => m@ == models_dir(self.data@),
                _ => false,
            },
            // The model servers planned from the listing are taken in order: each one whose
            // program is a file is launched, the others are skipped; then the daemon is located.
            self.stage is ListModels ==> match event {
                StartEvent::Listing(names) => self.check_or_locate(planned_servers(self.data@, strings_view(names@)), r.0.stage, r.1),
                _ => true,
            },
            match (self.stage, event) {
                (StartStage::CheckModelServer { current, pending }, StartEvent::Present(true)) => match (r.0.stage, r.1) {
                    (StartStage::LaunchModelServer { pending: rest }, StartAction::LaunchModelServer(l)) => rest == pending && l == current,
                    _ => false,
                },
                (StartStage::CheckModelServer { current, pending }, StartEvent::Present(false)) => self.next_server(pending@, r.0.stage, r.1),
                (StartStage::LaunchModelServer { pending }, _) => self.next_server(pending@, r.0.stage, r.1),
                _ => true,
            },
            // The daemon binary: the plain name, else the target name, else the bundled one,
            // else an error.
            self.stage is LocateDaemon ==> match event {
                StartEvent::DaemonFiles { plain_is_file, named_is_file, bundled } => {
                    &&& plain_is_file ==> r.0.stage is SpawnDaemon && self.spawn_action(r.1, default_daemon_path(self.data@))
                    &&& !plain_is_file && named_is_file ==> r.0.stage is SpawnDaemon
                        && self.spawn_action(r.1, named_daemon_path(self.data@, self.target@))
                    &&& !plain_is_file && !named_is_file ==> match bundled {
                        Some(b) => match (r.0.stage, r.1) {
                            (StartStage::InstallDaemon { program }, StartAction::InstallDaemon { from, to, dir, mode }) =>
                                program@ == default_daemon_path(self.data@) && from@ == b@
                                && to@ == default_daemon_path(self.data@) && dir@ == bin_dir(self.data@) && mode == DAEMON_FILE_MODE,
                            _ => false,
                        },
                        None => r.0.stage is Finished && match r.1 {
                            StartAction::Finish(Err(m)) => m@ == missing_daemon_message(debug_text(default_daemon_path(self.data@))),
                            _ => false,
                        },
                    }
                },
                _ => true,
            },
            event is Done ==> match self.stage {
                StartStage::InstallDaemon { program } => r.0.stage is SpawnDaemon && self.spawn_action(r.1, program@),
                _ => true,
            },
            // The pid the daemon got is the one recorded.
            self.stage is SpawnDaemon ==> match event {
                StartEvent::Spawned(pid) => r.0.stage is RecordPid && match r.1 {
                    StartAction::RecordPid { pid: p, pid_path: path, contents } =>
                        p == pid && path@ == pid_path(self.data@) && contents@ == pid_text(pid),
                    _ => false,
                },
                _ => true,
            },
            self.stage is RecordPid && event is Done ==> r.0.stage is AwaitDaemon && match r.1 {
                StartAction::AwaitDaemon { port, check } => port == self.port && check.timeout_ms == 10_000
                    && check.interval_ms == 200,
                _ => false,
            },
            self.stage is AwaitDaemon ==> r.0.stage is Finished && finishes_with(r.1, Ok(())),
    {
        let Startup { data, target, port, stage } = self;
        let me = Startup { data, target, port, stage: StartStage::Finished };
        match stage {
            StartStage::CheckRunning => match event {
                StartEvent::Running(true) => (me, StartAction::Finish(Ok(()))),
                StartEvent::Running(false) => {
                    let dirs = AndroidManager.ensure_dirs(me.data.as_str());
                    (Startup { stage: StartStage::CreateDirs, ..me }, StartAction::CreateDirs(dirs))
                },
                StartEvent::Failed(e) => (me, StartAction::Finish(Err(e))),
                _ => (me, StartAction::Finish(Ok(()))),
            },
            StartStage::CreateDirs => match event {
                StartEvent::Failed(e) => (me, StartAction::Finish(Err(e))),
                _ => {
                    let m = join_path(me.data.as_str(), "models");
                    (Startup { stage: StartStage::ListModels, ..me }, StartAction::ListModels(m))
                },
            },
            StartStage::ListModels => match event {
                StartEvent::Listing(names) => {
                    let plan = AndroidManager.start_llama_servers(me.data.as_str(), &names);
                    Self::next_model_server(me, plan)
                },
                StartEvent::Failed(e) => (me, StartAction::Finish(Err(e))),
                _ => (me, StartAction::Finish(Ok(()))),
            },
            StartStage::CheckModelServer { current, pending } => match event {
                StartEvent::Present(true) => (
                    Startup { stage: StartStage::LaunchModelServer { pending }, ..me },
                    StartAction::LaunchModelServer(current),
                ),
                StartEvent::Failed(e) => (me, StartAction::Finish(Err(e))),
                _ => Self::next_model_server(me, pending),
            },
            StartStage::LaunchModelServer { pending } => match event {
                StartEvent::Failed(e) => (me, StartAction::Finish(Err(e))),
                _ => Self::next_model_server(me, pending),
            },
            StartStage::LocateDaemon => match event {
                StartEvent::DaemonFiles { plain_is_file, named_is_file, bundled } => {
                    let b = match &bundled {
                        Some(s) => Some(s.as_str()),
                        None => None,
                    };
                    match AndroidManager.extract_daemon(me.data.as_str(), me.target.as_str(), plain_is_file, named_is_file, b) {
                        DaemonBinary::Existing(p) => {
                            let a = me.spawn(p);
                            (Startup { stage: StartStage::SpawnDaemon, ..me }, a)
                        },
                        DaemonBinary::Install { from, to, dir } => {
                            let program = String::from_str(to.as_str());
                            (
                                Startup { stage: StartStage::InstallDaemon { program }, ..me },
                                StartAction::InstallDaemon { from, to, dir, mode: DAEMON_FILE_MODE },
                            )
                        },
                        DaemonBinary::Missing(m) => (me, StartAction::Finish(Err(m))),
                    }
                },
                StartEvent::Failed(e) => (me, StartAction::Finish(Err(e))),
                _ => (me, StartAction::Finish(Ok(()))),
            },
            StartStage::InstallDaemon { program } => match event {
                StartEvent::Failed(e) => (me, StartAction::Finish(Err(e))),
                _ => {
                    let a = me.spawn(program);
                    (Startup { stage: StartStage::SpawnDaemon, ..me }, a)
                },
            },
            StartStage::SpawnDaemon => match event {
                StartEvent::Spawned(pid) => {
                    let path = AndroidManager.pid_file_path(me.data.as_str());
                    let contents = pid_file_contents(pid);
                    (Startup { stage: StartStage::RecordPid, ..me }, StartAction::RecordPid { pid, pid_path: path, contents })
                },
                StartEvent::Failed(e) => (me, StartAction::Finish(Err(e))),
                _ => (me, StartAction::Finish(Ok(()))),
            },
            StartStage::RecordPid => match event {
                StartEvent::Failed(e) => (me, StartAction::Finish(Err(e))),
                _ => {
                    let port = me.port;
                    (Startup { stage: StartStage::AwaitDaemon, ..me }, StartAction::AwaitDaemon { port, check: daemon_health() })
                },
            },
            StartStage::AwaitDaemon => match event {
                StartEvent::Failed(e) => (me, StartAction::Finish(Err(e))),
                _ => (me, StartAction::Finish(Ok(()))),
            },
            StartStage::Finished => (me, StartAction::Finish(Ok(()))),
        }
    }
}

impl AndroidManager {
    /// Begins starting the daemon with data directory `data` and platform target name
    /// `target`, waiting for it on `port` once it is started: the first thing to do is to
    /// find out whether it already runs.
    pub fn start(&self, data: String, target: String, port: u16) -> (r: (Startup, StartAction))
        ensures
            r.0.data == data && r.0.target == target && r.0.port == port,
            r.0.stage is CheckRunning,
            r.0.well_formed(),
            r.1 is CheckRunning,
    {
        (Startup { data, target, port, stage: StartStage::CheckRunning }, StartAction::CheckRunning)
    }
}

} // verus!
