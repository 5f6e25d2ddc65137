//! The device manager: where the app's data lives, which binaries and models it starts,
//! with which arguments, and how it tells whether the daemon runs and stops it.

use vstd::prelude::*;
use crate::text::opt_view;
use crate::numeric::{decimal, push_decimal};
use crate::paths::{join, join_path, cat_str};
use crate::process::{Shutdown, StopStage, recorded_pid, pid_text, read_pid_text, signal_target, wrapped_i32, lemma_pid_file_round_trip};
use crate::text::{has_gguf_extension, is_gguf_file_name, lowercase, starts_with, to_lowercase};

verus! {

pub open spec fn strings_view(v: Seq<String>) -> Seq<Seq<char>> {
    v.map_values(|s: String| s@)
}

pub open spec fn pairs_view(v: Seq<(String, String)>) -> Seq<(Seq<char>, Seq<char>)> {
    v.map_values(|p: (String, String)| (p.0@, p.1@))
}

/// Where the app keeps its data when nothing else is found.
pub open spec fn default_data_dir_spec() -> Seq<char> {
    "/data/data/ai.signet.app/files/.agents"@
}

pub fn default_data_dir() -> (r: &'static str)
    ensures
        r@ == default_data_dir_spec(),
{
    "/data/data/ai.signet.app/files/.agents"
}

/// The executable assumed when the app cannot find its own.
pub fn fallback_executable() -> (r: &'static str)
    ensures
        r@ == "/data/local/tmp/signet"@,
{
    "/data/local/tmp/signet"
}

/// The directory assumed when the executable's path has no parent.
pub fn fallback_executable_dir() -> (r: &'static str)
    ensures
        r@ == "/data/local/tmp"@,
{
    "/data/local/tmp"
}

/// The places, in order, where a data directory may sit next to the executable in `exe_dir`.
pub open spec fn data_dir_candidates_spec(exe_dir: Seq<char>) -> Seq<Seq<char>> {
    seq![
        join(join(exe_dir, "../../../files"@), ".agents"@),
        join(join(exe_dir, "../../files"@), ".agents"@),
        join(join(exe_dir, "../files"@), ".agents"@),
    ]
}

pub fn data_dir_candidates(exe_dir: &str) -> (r: Vec<String>)
    ensures
        strings_view(r@) == data_dir_candidates_spec(exe_dir@),
{
    let mut r: Vec<String> = Vec::new();
    let a = join_path(exe_dir, "../../../files");
    r.push(join_path(a.as_str(), ".agents"));
    let b = join_path(exe_dir, "../../files");
    r.push(join_path(b.as_str(), ".agents"));
    let c = join_path(exe_dir, "../files");
    r.push(join_path(c.as_str(), ".agents"));
    assert(strings_view(r@) =~= data_dir_candidates_spec(exe_dir@));
    r
}

/// What the file system says of a place where the data directory may be: whether it
/// exists, and the path it resolves to (`None` when it cannot be resolved).
pub struct DirCheck {
    pub path: String,
    pub exists: bool,
    pub resolved: Option<String>,
}

/// The directory a place stands for: its resolved path, or the path itself when it could
/// not be resolved.
pub open spec fn checked_dir(c: DirCheck) -> Seq<char> {
    match c.resolved {
        Some(r) => r@,
        None => c.path@,
    }
}

/// The first place from `i` on that exists.
pub open spec fn first_existing_from(checks: Seq<DirCheck>, i: int) -> Option<int>
    decreases checks.len() - i,
{
    if i >= checks.len() {
        None
    } else if checks[i].exists {
        Some(i)
    } else {
        first_existing_from(checks, i + 1)
    }
}

/// The data directory: `SIGNET_PATH` when it is set, else the first of the places next to
/// the executable that exists (resolved), else the default.
pub open spec fn data_dir_spec(custom: Option<Seq<char>>, checks: Seq<DirCheck>) -> Seq<char> {
    match custom {
        Some(c) => c,
        None => match first_existing_from(checks, 0) {
            Some(i) => checked_dir(checks[i]),
            None => default_data_dir_spec(),
        },
    }
}

/// The data directory, given `SIGNET_PATH` (`None` when unset or not Unicode) and what the
/// file system says of each candidate place, in order.
pub fn pick_data_dir(custom: Option<&str>, checks: &Vec<DirCheck>) -> (r: String)
    ensures
        r@ == data_dir_spec(opt_view(custom), checks@),
{
    if let Some(c) = custom {
        return String::from_str(c);
    }
    let mut i: usize = 0;
    while i < checks.len()
        invariant
            i <= checks@.len(),
            custom is None,
            first_existing_from(checks@, 0) == first_existing_from(checks@, i as int),
        decreases checks@.len() - i,
    {
        if checks[i].exists {
            return match &checks[i].resolved {
                Some(p) => String::from_str(p.as_str()),
                None => String::from_str(checks[i].path.as_str()),
            };
        }
        i = i + 1;
    }
    String::from_str(default_data_dir())
}

pub open spec fn daemon_dir(data: Seq<char>) -> Seq<char> {
    join(data, ".daemon"@)
}

pub open spec fn bin_dir(data: Seq<char>) -> Seq<char> {
    join(data, "bin"@)
}

pub open spec fn models_dir(data: Seq<char>) -> Seq<char> {
    join(data, "models"@)
}

pub open spec fn pid_path(data: Seq<char>) -> Seq<char> {
    join(data, ".daemon/pid"@)
}

pub open spec fn daemon_log_path(data: Seq<char>) -> Seq<char> {
    join(data, ".daemon/logs/daemon.log"@)
}

/// The directories the manager creates before it starts anything.
pub open spec fn required_dirs(data: Seq<char>) -> Seq<Seq<char>> {
    seq![daemon_dir(data), join(daemon_dir(data), "logs"@), bin_dir(data), join(data, "memory"@)]
}

/// The path of the daemon's binary when it carries the platform's target name.
pub open spec fn named_daemon_path(data: Seq<char>, target: Seq<char>) -> Seq<char> {
    join(bin_dir(data), "signet-daemon-"@ + target)
}

pub open spec fn default_daemon_path(data: Seq<char>) -> Seq<char> {
    join(bin_dir(data), "signet-daemon"@)
}

/// The path `Debug` prints for a path (quoted, with escapes), as `format!("{:?}", path)`
/// gives it: a function of the path's text alone.
pub uninterp spec fn debug_text(path: Seq<char>) -> Seq<char>;

/// Calls the standard library's `Debug` formatting of a `Path`. Trusted: the result is the
/// value named `debug_text(path)`; what the quoting and escaping look like is not stated.
#[verifier::external_body]
fn debug_path(path: &str) -> (r: String)
    ensures
        r@ == debug_text(path@),
{
    format!("{:?}", std::path::Path::new(path))
}

/// The error for a missing daemon binary, given how its expected path prints.
pub open spec fn missing_daemon_message(debug_path: Seq<char>) -> Seq<char> {
    "No daemon binary found at "@ + debug_path + ". Kotlin should have extracted it from APK assets on first launch."@
}

pub fn missing_daemon_text(debug_path: &str) -> (r: String)
    ensures
        r@ == missing_daemon_message(debug_path@),
{
    let mut out = String::from_str("No daemon binary found at ");
    out.append(debug_path);
    out.append(". Kotlin should have extracted it from APK assets on first launch.");
    out
}

/// The file mode the daemon binary is given when it is installed.
pub const DAEMON_FILE_MODE: u32 = 0o755;

/// Where the daemon binary comes from.
pub enum DaemonBinary {
    /// It is already in place at this path.
    Existing(String),
    /// Copy the bundled binary `from` to `to` (creating `dir` first) and make it executable.
    Install { from: String, to: String, dir: String },
    /// There is none; the error message.
    Missing(String),
}

/// A model server the manager starts.
#[derive(Clone, Copy, Debug, PartialEq, Eq, Structural)]
pub enum ModelServer {
    /// The embedding server (nomic-embed).
    Embedding,
    /// The extraction and synthesis server (Qwen).
    Extraction,
}

pub open spec fn server_port(s: ModelServer) -> u16 {
    match s {
        ModelServer::Embedding => 8080,
        ModelServer::Extraction => 8081,
    }
}

pub open spec fn server_extra_args(s: ModelServer) -> Seq<Seq<char>> {
    match s {
        ModelServer::Embedding => seq!["--embedding"@],
        ModelServer::Extraction => Seq::<Seq<char>>::empty(),
    }
}

pub open spec fn server_log_suffix(s: ModelServer) -> Seq<char> {
    match s {
        ModelServer::Embedding => "embed"@,
        ModelServer::Extraction => "llm"@,
    }
}

impl ModelServer {
    /// The port the server listens on.
    pub fn port(&self) -> (p: u16)
        ensures
            p == server_port(*self),
    {
        match self {
            ModelServer::Embedding => 8080,
            ModelServer::Extraction => 8081,
        }
    }

    /// The name the server goes by in its log file's name and in log messages.
    pub fn label(&self) -> (r: &'static str)
        ensures
            r@ == server_log_suffix(*self),
    {
        match self {
            ModelServer::Embedding => "embed",
            ModelServer::Extraction => "llm",
        }
    }
}

/// The command line of a model server.
pub struct LlamaCommand {
    pub program: String,
    pub args: Vec<String>,
    pub log_path: String,
}

/// A model server to start, and how.
pub struct LlamaLaunch {
    pub server: ModelServer,
    pub command: LlamaCommand,
}

pub open spec fn llama_program(data: Seq<char>) -> Seq<char> {
    join(bin_dir(data), "llama-server"@)
}

pub open spec fn llama_log_path(data: Seq<char>, suffix: Seq<char>) -> Seq<char> {
    join(data, ".daemon/logs/llama-server-"@ + suffix + ".log"@)
}

/// The arguments of a model server on `port` serving `model`.
pub open spec fn llama_args(model: Seq<char>, port: u16, extra: Seq<Seq<char>>) -> Seq<Seq<char>> {
    seq![
        "--model"@, model, "--host"@, "127.0.0.1"@, "--port"@, decimal(port as nat),
        "--ctx-size"@, "2048"@, "--threads"@, "4"@,
    ] + extra
}

pub open spec fn command_is(c: LlamaCommand, data: Seq<char>, model: Seq<char>, port: u16, extra: Seq<Seq<char>>, suffix: Seq<char>) -> bool {
    &&& c.program@ == llama_program(data)
    &&& strings_view(c.args@) == llama_args(model, port, extra)
    &&& c.log_path@ == llama_log_path(data, suffix)
}

/// Whether a model file name matches a prefix: it has the `gguf` extension and its lower
/// case form (`lowered`) starts with the prefix.
pub open spec fn model_matches(name: Seq<char>, lowered: Seq<char>, prefix: Seq<char>) -> bool {
    has_gguf_extension(name) && prefix.is_prefix_of(lowered)
}

/// The first position from `i` on whose name matches.
pub open spec fn first_match_from(names: Seq<Seq<char>>, lowered: Seq<Seq<char>>, prefix: Seq<char>, i: int) -> Option<int>
    decreases names.len() - i,
{
    if i >= names.len() {
        None
    } else if model_matches(names[i], lowered[i], prefix) {
        Some(i)
    } else {
        first_match_from(names, lowered, prefix, i + 1)
    }
}

/// The first model file, in listing order, whose name matches `prefix`.
pub open spec fn model_choice(names: Seq<Seq<char>>, prefix: Seq<char>) -> Option<int> {
    first_match_from(names, names.map_values(|n: Seq<char>| lowercase(n)), prefix, 0)
}

/// The first position from `i` on whose name has the `gguf` extension.
pub open spec fn first_gguf_from(names: Seq<Seq<char>>, i: int) -> Option<int>
    decreases names.len() - i,
{
    if i >= names.len() {
        None
    } else if has_gguf_extension(names[i]) {
        Some(i)
    } else {
        first_gguf_from(names, i + 1)
    }
}

/// The path of the model at position `i` of the listing, if any.
pub open spec fn model_path_at(data: Seq<char>, names: Seq<Seq<char>>, i: Option<int>) -> Option<Seq<char>> {
    match i {
        Some(k) => Some(join(models_dir(data), names[k])),
        None => None,
    }
}

/// The model server for the Qwen model: looked up as `qwen`, then as `Qwen`.
pub open spec fn extraction_model(names: Seq<Seq<char>>) -> Option<int> {
    match model_choice(names, "qwen"@) {
        Some(i) => Some(i),
        None => model_choice(names, "Qwen"@),
    }
}

/// The model servers to start, in order, with the path of each one's model.
pub open spec fn planned_servers(data: Seq<char>, names: Seq<Seq<char>>) -> Seq<(ModelServer, Seq<char>)> {
    let embed = match model_path_at(data, names, model_choice(names, "nomic-embed"@)) {
        Some(p) => seq![(ModelServer::Embedding, p)],
        None => Seq::<(ModelServer, Seq<char>)>::empty(),
    };
    let llm = match model_path_at(data, names, extraction_model(names)) {
        Some(p) => seq![(ModelServer::Extraction, p)],
        None => Seq::<(ModelServer, Seq<char>)>::empty(),
    };
    embed + llm
}

/// The environment the daemon runs with.
pub open spec fn daemon_env_spec(data: Seq<char>) -> Seq<(Seq<char>, Seq<char>)> {
    seq![
        ("SIGNET_PATH"@, data),
        ("SIGNET_PORT"@, "3850"@),
        ("SIGNET_HOST"@, "127.0.0.1"@),
        ("SIGNET_BIND"@, "127.0.0.1"@),
        ("RUST_LOG"@, "info"@),
    ]
}

/// The process id to check for life when asking whether the daemon runs: `None` (it does not
/// run) when the recorded pid is 0.
pub open spec fn running_probe_spec(file: Option<Seq<char>>, stored: u32) -> Option<i32> {
    let pid = recorded_pid(file, stored);
    if pid == 0 {
        None
    } else {
        Some(wrapped_i32(pid) as i32)
    }
}

/// How many times a stopping model server is checked.
pub const MODEL_SERVER_STOP_PROBES: u32 = 20;

/// How many times the stopping daemon is checked before it is killed.
pub const DAEMON_STOP_PROBES: u32 = 30;

/// The manager of the daemon and its model servers on the device.
pub struct AndroidManager;

impl AndroidManager {
    /// The directories to create under the data directory.
    pub fn ensure_dirs(&self, data: &str) -> (r: Vec<String>)
        ensures
            strings_view(r@) == required_dirs(data@),
    {
        let mut r: Vec<String> = Vec::new();
        let daemon = join_path(data, ".daemon");
        let logs = join_path(daemon.as_str(), "logs");
        r.push(daemon);
        r.push(logs);
        r.push(join_path(data, "bin"));
        r.push(join_path(data, "memory"));
        assert(strings_view(r@) =~= required_dirs(data@));
        r
    }

    /// The two places the daemon binary may already be: its plain name and its name with
    /// the platform's target.
    pub fn daemon_binary_paths(&self, data: &str, target: &str) -> (r: (String, String))
        ensures
            r.0@ == default_daemon_path(data@),
            r.1@ == named_daemon_path(data@, target@),
    {
        let bin = join_path(data, "bin");
        let named = cat_str("signet-daemon-", target);
        (join_path(bin.as_str(), "signet-daemon"), join_path(bin.as_str(), named.as_str()))
    }

    /// Where the daemon binary comes from, given whether each of the two places holds a
    /// file and the bundled binary, if the platform has one: the plain name first, then the
    /// target name, then the bundled binary, installed under the plain name.
    pub fn extract_daemon(
        &self,
        data: &str,
        target: &str,
        default_is_file: bool,
        named_is_file: bool,
        bundled: Option<&str>,
    ) -> (r: DaemonBinary)
        ensures
            default_is_file ==> (r matches DaemonBinary::Existing(p) && p@ == default_daemon_path(data@)),
            !default_is_file && named_is_file ==> (r matches DaemonBinary::Existing(p) && p@ == named_daemon_path(data@, target@)),
            !default_is_file && !named_is_file && bundled is Some ==> (r matches DaemonBinary::Install { from, to, dir }
                && from@ == bundled.unwrap()@ && to@ == default_daemon_path(data@) && dir@ == bin_dir(data@)),
            !default_is_file && !named_is_file && bundled is None ==> (r matches DaemonBinary::Missing(m)
                && m@ == missing_daemon_message(debug_text(default_daemon_path(data@)))),
    {
        let (plain, named) = self.daemon_binary_paths(data, target);
        if default_is_file {
            return DaemonBinary::Existing(plain);
        }
        if named_is_file {
            return DaemonBinary::Existing(named);
        }
        match bundled {
            Some(b) => DaemonBinary::Install { from: String::from_str(b), to: plain, dir: join_path(data, "bin") },
            None => {
                let shown = debug_path(plain.as_str());
                DaemonBinary::Missing(missing_daemon_text(shown.as_str()))
            },
        }
    }

    /// The first model in the listing `names` of the models directory that matches
    /// `prefix`, given the lower-case form of each name.
    pub fn pick_model(&self, data: &str, names: &Vec<String>, lowered: &Vec<String>, prefix: &str) -> (r: Option<String>)
        requires
            lowered@.len() == names@.len(),
        ensures
            opt_string_view(r) == model_path_at(data@, strings_view(names@),
                first_match_from(strings_view(names@), strings_view(lowered@), prefix@, 0)),
    {
        let ghost nv = strings_view(names@);
        let ghost lv = strings_view(lowered@);
        let mut i: usize = 0;
        while i < names.len()
            invariant
                lowered@.len() == names@.len(),
                nv == strings_view(names@),
                lv == strings_view(lowered@),
                i <= names@.len(),
                first_match_from(nv, lv, prefix@, 0) == first_match_from(nv, lv, prefix@, i as int),
            decreases names@.len() - i,
        {
            if is_gguf_file_name(names[i].as_str()) && starts_with(lowered[i].as_str(), prefix) {
                let models = join_path(data, "models");
                return Some(join_path(models.as_str(), names[i].as_str()));
            }
            i = i + 1;
        }
        None
    }

    /// The first model in the listing `names` of the models directory whose file name has
    /// the `gguf` extension and, in lower case, starts with `prefix`.
    pub fn find_model(&self, data: &str, names: &Vec<String>, prefix: &str) -> (r: Option<String>)
        ensures
            opt_string_view(r) == model_path_at(data@, strings_view(names@), model_choice(strings_view(names@), prefix@)),
    {
        let mut lowered: Vec<String> = Vec::new();
        let mut i: usize = 0;
        while i < names.len()
            invariant
                i <= names@.len(),
                lowered@.len() == i,
                forall|k: int| 0 <= k < i ==> #[trigger] lowered@[k]@ == lowercase(names@[k]@),
            decreases names@.len() - i,
        {
            lowered.push(to_lowercase(names[i].as_str()));
            i = i + 1;
        }
        assert(strings_view(lowered@) =~= strings_view(names@).map_values(|n: Seq<char>| lowercase(n)));
        self.pick_model(data, names, &lowered, prefix)
    }

    /// The first model in the listing `names` of the models directory with the `gguf`
    /// extension.
    pub fn find_any_model(&self, data: &str, names: &Vec<String>) -> (r: Option<String>)
        ensures
            opt_string_view(r) == model_path_at(data@, strings_view(names@), first_gguf_from(strings_view(names@), 0)),
    {
        let ghost nv = strings_view(names@);
        let mut i: usize = 0;
        while i < names.len()
            invariant
                nv == strings_view(names@),
                i <= names@.len(),
                first_gguf_from(nv, 0) == first_gguf_from(nv, i as int),
            decreases names@.len() - i,
        {
            if is_gguf_file_name(names[i].as_str()) {
                let models = join_path(data, "models");
                return Some(join_path(models.as_str(), names[i].as_str()));
            }
            i = i + 1;
        }
        None
    }

    /// The command line of a model server on `port` serving `model`, with `extra_args`
    /// after the common ones, logging to the file named by `log_suffix`.
    pub fn spawn_llama_server(&self, data: &str, model: &str, port: u16, extra_args: &Vec<String>, log_suffix: &str) -> (r: LlamaCommand)
        ensures
            command_is(r, data@, model@, port, strings_view(extra_args@), log_suffix@),
    {
        let bin = join_path(data, "bin");
        let program = join_path(bin.as_str(), "llama-server");
        let mut log_name = String::from_str(".daemon/logs/llama-server-");
        log_name.append(log_suffix);
        log_name.append(".log");
        let log_path = join_path(data, log_name.as_str());
        let mut args: Vec<String> = Vec::new();
        args.push(String::from_str("--model"));
        args.push(String::from_str(model));
        args.push(String::from_str("--host"));
        args.push(String::from_str("127.0.0.1"));
        args.push(String::from_str("--port"));
        let mut port_text = String::new();
        push_decimal(&mut port_text, port as u32);
        args.push(port_text);
        args.push(String::from_str("--ctx-size"));
        args.push(String::from_str("2048"));
        args.push(String::from_str("--threads"));
        args.push(String::from_str("4"));
        let ghost head = strings_view(args@);
        let mut i: usize = 0;
        while i < extra_args.len()
            invariant
                i <= extra_args@.len(),
                strings_view(args@) == head + strings_view(extra_args@).take(i as int),
            decreases extra_args@.len() - i,
        {
            let ghost before = args@;
            args.push(String::from_str(extra_args[i].as_str()));
            assert(strings_view(args@) =~= strings_view(before).push(extra_args@[i as int]@));
            assert(strings_view(extra_args@).take(i + 1) =~= strings_view(extra_args@).take(i as int).push(extra_args@[i as int]@));
            assert(strings_view(args@) =~= head + strings_view(extra_args@).take(i + 1));
            i = i + 1;
        }
        assert(strings_view(extra_args@).take(extra_args@.len() as int) =~= strings_view(extra_args@));
        assert(strings_view(args@) =~= llama_args(model@, port, strings_view(extra_args@)));
        LlamaCommand { program, args, log_path }
    }

    /// The command line of `server` serving `model`.
    pub fn model_server_command(&self, data: &str, model: &str, server: ModelServer) -> (r: LlamaCommand)
        ensures
            command_is(r, data@, model@, server_port(server), server_extra_args(server), server_log_suffix(server)),
    {
        let mut extra: Vec<String> = Vec::new();
        match server {
            ModelServer::Embedding => {
                extra.push(String::from_str("--embedding"));
                assert(strings_view(extra@) =~= server_extra_args(server));
                self.spawn_llama_server(data, model, 8080, &extra, "embed")
            },
            ModelServer::Extraction => {
                assert(strings_view(extra@) =~= server_extra_args(server));
                self.spawn_llama_server(data, model, 8081, &extra, "llm")
            },
        }
    }

    /// The model servers to start, given the listing `names` of the models directory
    /// (empty when there is none): the embedding server on 8080 when a `nomic-embed` model
    /// is there, then the extraction server on 8081 when a Qwen model is.
    pub fn start_llama_servers(&self, data: &str, names: &Vec<String>) -> (r: Vec<LlamaLaunch>)
        ensures
            r@.len() == planned_servers(data@, strings_view(names@)).len(),
            forall|i: int| 0 <= i < r@.len() ==> {
                let (server, model) = #[trigger] planned_servers(data@, strings_view(names@))[i];
                &&& r@[i].server == server
                &&& command_is(r@[i].command, data@, model, server_port(server), server_extra_args(server), server_log_suffix(server))
            },
    {
        let ghost nv = strings_view(names@);
        let mut r: Vec<LlamaLaunch> = Vec::new();
        let embed = self.find_model(data, names, "nomic-embed");
        let ghost embed_part = match model_path_at(data@, nv, model_choice(nv, "nomic-embed"@)) {
            Some(p) => seq![(ModelServer::Embedding, p)],
            None => Seq::<(ModelServer, Seq<char>)>::empty(),
        };
        match embed {
            Some(model) => {
                let command = self.model_server_command(data, model.as_str(), ModelServer::Embedding);
                r.push(LlamaLaunch { server: ModelServer::Embedding, command });
            },
            None => {},
        }
        let llm = match self.find_model(data, names, "qwen") {
            Some(m) => Some(m),
            None => self.find_model(data, names, "Qwen"),
        };
        let ghost llm_part = match model_path_at(data@, nv, extraction_model(nv)) {
            Some(p) => seq![(ModelServer::Extraction, p)],
            None => Seq::<(ModelServer, Seq<char>)>::empty(),
        };
        assert(planned_servers(data@, nv) == embed_part + llm_part);
        assert(opt_string_view(llm) == model_path_at(data@, nv, extraction_model(nv)));
        match llm {
            Some(model) => {
                let command = self.model_server_command(data, model.as_str(), ModelServer::Extraction);
                r.push(LlamaLaunch { server: ModelServer::Extraction, command });
            },
            None => {},
        }
        r
    }

    /// The file that holds the daemon's pid.
    pub fn pid_file_path(&self, data: &str) -> (r: String)
        ensures
            r@ == pid_path(data@),
    {
        join_path(data, ".daemon/pid")
    }

    /// The file the daemon logs to.
    pub fn daemon_log_file(&self, data: &str) -> (r: String)
        ensures
            r@ == daemon_log_path(data@),
    {
        join_path(data, ".daemon/logs/daemon.log")
    }

    /// The environment the daemon is started with.
    pub fn daemon_env(&self, data: &str) -> (r: Vec<(String, String)>)
        ensures
            pairs_view(r@) == daemon_env_spec(data@),
    {
        let mut r: Vec<(String, String)> = Vec::new();
        r.push((String::from_str("SIGNET_PATH"), String::from_str(data)));
        r.push((String::from_str("SIGNET_PORT"), String::from_str("3850")));
        r.push((String::from_str("SIGNET_HOST"), String::from_str("127.0.0.1")));
        r.push((String::from_str("SIGNET_BIND"), String::from_str("127.0.0.1")));
        r.push((String::from_str("RUST_LOG"), String::from_str("info")));
        assert(pairs_view(r@) =~= daemon_env_spec(data@));
        r
    }

    /// The daemon's pid as recorded: the pid file's (`pid_file` is its text, `None` when it
    /// cannot be read) if it names one, else the one kept in memory.
    pub fn read_pid_file(&self, pid_file: Option<&str>, stored: u32) -> (r: u32)
        ensures
            r == recorded_pid(opt_view(pid_file), stored),
    {
        match pid_file {
            Some(c) => match read_pid_text(c) {
                Some(p) => p,
                None => stored,
            },
            None => stored,
        }
    }

    /// Whether the daemon may run: `None` when it does not, else the process id whose life
    /// tells (`kill(target, 0) == 0`).
    pub fn is_running(&self, pid_file: Option<&str>, stored: u32) -> (r: Option<i32>)
        ensures
            r == running_probe_spec(opt_view(pid_file), stored),
    {
        let pid = self.read_pid_file(pid_file, stored);
        if pid == 0 {
            None
        } else {
            Some(signal_target(pid))
        }
    }

    /// The shutdown of the daemon: the recorded pid, checked up to 30 times, then killed if
    /// it still runs.
    pub fn stop(&self, pid_file: Option<&str>, stored: u32) -> (r: Shutdown)
        ensures
            r.pid == recorded_pid(opt_view(pid_file), stored),
            r.probe_limit == DAEMON_STOP_PROBES,
            r.escalate,
            r.well_formed(),
            r.stage == (if r.pid == 0 { StopStage::Finished { released: false } } else { StopStage::Terminate }),
    {
        Shutdown::new(self.read_pid_file(pid_file, stored), DAEMON_STOP_PROBES, true)
    }

    /// The shutdown of a model server with pid `stored`: checked up to 20 times, never killed.
    pub fn stop_llama_server(&self, stored: u32) -> (r: Shutdown)
        ensures
            r.pid == stored,
            r.probe_limit == MODEL_SERVER_STOP_PROBES,
            !r.escalate,
            r.well_formed(),
            r.stage == (if stored == 0 { StopStage::Finished { released: false } } else { StopStage::Terminate }),
    {
        Shutdown::new(stored, MODEL_SERVER_STOP_PROBES, false)
    }
}

pub open spec fn opt_string_view(o: Option<String>) -> Option<Seq<char>> {
    match o {
        Some(s) => Some(s@),
        None => None,
    }
}

/// After the daemon was started with pid `pid` (kept in memory and written to its pid
/// file), asking whether it runs checks that very process, and stopping it stops that
/// process.
pub proof fn lemma_started_daemon_is_the_one_checked(pid: u32)
    requires
        pid != 0,
    ensures
        running_probe_spec(Some(pid_text(pid)), pid) == Some(wrapped_i32(pid) as i32),
        recorded_pid(Some(pid_text(pid)), pid) == pid,
{
    lemma_pid_file_round_trip(pid, pid);
}

/// Once a stop has released the daemon (its pid cleared and its pid file removed), the
/// daemon is reported not running, and another stop has nothing to do.
pub proof fn lemma_released_daemon_is_stopped()
    ensures
        running_probe_spec(None, 0) is None,
        recorded_pid(None, 0) == 0,
{
}

/// What a model server's model file must look like: a `gguf` file whose lower-case name
/// starts with `nomic-embed` for the embedding server, and with `qwen` (or `Qwen`) for the
/// extraction server.
pub open spec fn serves(server: ModelServer, name: Seq<char>) -> bool {
    &&& has_gguf_extension(name)
    &&& match server {
        ModelServer::Embedding => "nomic-embed"@.is_prefix_of(lowercase(name)),
        ModelServer::Extraction => "qwen"@.is_prefix_of(lowercase(name)) || "Qwen"@.is_prefix_of(lowercase(name)),
    }
}

/// Whether the listing holds a file `server` can serve.
pub open spec fn listed_for(server: ModelServer, names: Seq<Seq<char>>) -> bool {
    exists|k: int| 0 <= k < names.len() && #[trigger] serves(server, names[k])
}

/// Whether `plan` starts `server`.
pub open spec fn plans(plan: Seq<(ModelServer, Seq<char>)>, server: ModelServer) -> bool {
    exists|i: int| 0 <= i < plan.len() && (#[trigger] plan[i]).0 == server
}

proof fn lemma_first_match(names: Seq<Seq<char>>, lowered: Seq<Seq<char>>, prefix: Seq<char>, i: int)
    requires
        0 <= i,
        lowered.len() == names.len(),
    ensures
        match first_match_from(names, lowered, prefix, i) {
            Some(k) => i <= k < names.len() && model_matches(names[k], lowered[k], prefix),
            None => forall|j: int| i <= j < names.len() ==> !model_matches(names[j], lowered[j], prefix),
        },
    decreases names.len() - i,
{
    if i < names.len() && !model_matches(names[i], lowered[i], prefix) {
        lemma_first_match(names, lowered, prefix, i + 1);
    }
}

/// The file `model_choice` picks for `prefix` matches it, and it picks none only when no
/// listed file matches.
proof fn lemma_model_choice(names: Seq<Seq<char>>, prefix: Seq<char>)
    ensures
        match model_choice(names, prefix) {
            Some(k) => 0 <= k < names.len() && has_gguf_extension(names[k]) && prefix.is_prefix_of(lowercase(names[k])),
            None => forall|j: int| 0 <= j < names.len() ==> !(has_gguf_extension(names[j]) && prefix.is_prefix_of(lowercase(names[j]))),
        },
{
    let lowered = names.map_values(|n: Seq<char>| lowercase(n));
    lemma_first_match(names, lowered, prefix, 0);
    match model_choice(names, prefix) {
        Some(k) => {
            assert(lowered[k] == lowercase(names[k]));
        },
        None => {
            assert forall|j: int| 0 <= j < names.len() implies !(has_gguf_extension(names[j]) && prefix.is_prefix_of(lowercase(names[j]))) by {
                assert(lowered[j] == lowercase(names[j]));
            }
        },
    }
}

/// The model servers started from a listing: each serves a listed file that suits it (from
/// the models directory), each is started exactly when such a file is listed, and the
/// embedding server comes before the extraction server.
pub proof fn lemma_planned_servers_serve_listed_models(data: Seq<char>, names: Seq<Seq<char>>)
    ensures
        planned_servers(data, names).len() <= 2,
        forall|i: int| 0 <= i < planned_servers(data, names).len() ==> exists|k: int| 0 <= k < names.len()
            && serves(#[trigger] planned_servers(data, names)[i].0, names[k])
            && planned_servers(data, names)[i].1 == join(models_dir(data), names[k]),
        plans(planned_servers(data, names), ModelServer::Embedding) <==> listed_for(ModelServer::Embedding, names),
        plans(planned_servers(data, names), ModelServer::Extraction) <==> listed_for(ModelServer::Extraction, names),
        forall|i: int, j: int| 0 <= i < j < planned_servers(data, names).len() ==>
            (#[trigger] planned_servers(data, names)[i]).0 == ModelServer::Embedding
            && (#[trigger] planned_servers(data, names)[j]).0 == ModelServer::Extraction,
{
    let plan = planned_servers(data, names);
    lemma_model_choice(names, "nomic-embed"@);
    lemma_model_choice(names, "qwen"@);
    lemma_model_choice(names, "Qwen"@);
    let embed = model_choice(names, "nomic-embed"@);
    let llm = extraction_model(names);
    // The extraction file, if any, suits the extraction server.
    match llm {
        Some(k) => {
            assert(serves(ModelServer::Extraction, names[k]));
        },
        None => {
            assert forall|j: int| 0 <= j < names.len() implies !serves(ModelServer::Extraction, names[j]) by {}
        },
    }
    match embed {
        Some(k) => {
            assert(serves(ModelServer::Embedding, names[k]));
        },
        None => {
            assert forall|j: int| 0 <= j < names.len() implies !serves(ModelServer::Embedding, names[j]) by {}
        },
    }
    // Completeness and soundness, case by case.
    if listed_for(ModelServer::Embedding, names) {
        let k = choose|k: int| 0 <= k < names.len() && #[trigger] serves(ModelServer::Embedding, names[k]);
        assert(embed is Some);
        assert(plan[0].0 == ModelServer::Embedding);
    }
    if listed_for(ModelServer::Extraction, names) {
        let k = choose|k: int| 0 <= k < names.len() && #[trigger] serves(ModelServer::Extraction, names[k]);
        assert(llm is Some);
        assert(plan[plan.len() - 1].0 == ModelServer::Extraction);
    }
    assert forall|i: int| 0 <= i < plan.len() implies exists|k: int| 0 <= k < names.len()
        && serves(#[trigger] plan[i].0, names[k]) && plan[i].1 == join(models_dir(data), names[k]) by {
        if plan[i].0 == ModelServer::Embedding {
            let k = embed.unwrap();
            assert(serves(plan[i].0, names[k]));
        } else {
            let k = llm.unwrap();
            assert(serves(plan[i].0, names[k]));
        }
    }
}

/// Whether the daemon runs is asked of the recorded pid alone: the answer is "not running"
/// exactly when the recorded pid is 0, and otherwise the process checked is the recorded pid
/// as `kill` takes it.
pub proof fn lemma_probe_checks_recorded_pid(file: Option<Seq<char>>, stored: u32)
    ensures
        running_probe_spec(file, stored) is None <==> recorded_pid(file, stored) == 0,
        running_probe_spec(file, stored) is Some ==> running_probe_spec(file, stored).unwrap() as int
            == wrapped_i32(recorded_pid(file, stored)),
{
}

/// A daemon whose pid file names a pid `p` other than 0 is the one checked, whatever pid is
/// kept in memory (0 after the app restarted, or another one).
pub proof fn lemma_pid_file_decides_probe(p: u32, stored: u32)
    requires
        p != 0,
    ensures
        running_probe_spec(Some(pid_text(p)), stored) == Some(wrapped_i32(p) as i32),
        recorded_pid(Some(pid_text(p)), stored) == p,
{
    lemma_pid_file_round_trip(p, stored);
}

/// Without a readable pid file, the pid kept in memory is the recorded one.
pub proof fn lemma_memory_pid_without_file(stored: u32)
    ensures
        recorded_pid(None, stored) == stored,
        running_probe_spec(None, stored) is None <==> stored == 0,
{
}

} // verus!
