//! The desktop managers, which start a bundled daemon and stop it through its pid file.

use vstd::prelude::*;
use crate::text::opt_view;
use crate::numeric::{parse_i32, parse_i32_spec, parse_u32, parse_u32_spec, IntErrorKind};
use crate::paths::{join, join_path};
use crate::process::{signal_target, wrapped_i32};
use crate::text::{trim, trim_str};

verus! {

/// The binary a desktop manager starts: the bundled daemon, or an error when there is none.
pub open spec fn bundled_start_spec(bundled: Option<Seq<char>>) -> Result<Seq<char>, Seq<char>> {
    match bundled {
        Some(b) => Ok(b),
        None => Err("No daemon binary found"@),
    }
}

fn bundled_start(bundled: Option<&str>) -> (r: Result<String, String>)
    ensures
        match r {
            Ok(b) => bundled_start_spec(opt_view(bundled)) == Ok::<Seq<char>, Seq<char>>(b@),
            Err(e) => bundled_start_spec(opt_view(bundled)) == Err::<Seq<char>, Seq<char>>(e@),
        },
{
    match bundled {
        Some(b) => Ok(String::from_str(b)),
        None => Err(String::from_str("No daemon binary found")),
    }
}

/// The file that holds the daemon's pid under the data directory.
pub open spec fn desktop_pid_path(data: Seq<char>) -> Seq<char> {
    join(data, ".daemon/pid"@)
}

/// The process id a Linux stop signals: the pid file's text without surrounding white
/// space, read as an `i32` (so a negative number is taken as it is).
pub open spec fn linux_stop_target(content: Seq<char>) -> Result<i32, IntErrorKind> {
    parse_i32_spec(trim(content))
}

/// The process id whose life tells whether the daemon runs on Linux: the pid file's pid
/// read as a `u32` and handed to `kill` as an `i32`; `None` (it does not run) when the file
/// cannot be read or names no pid.
pub open spec fn linux_running_probe(file: Option<Seq<char>>) -> Option<i32> {
    match file {
        Some(c) => match parse_u32_spec(trim(c)) {
            Ok(p) => Some(wrapped_i32(p) as i32),
            Err(_) => None,
        },
        None => None,
    }
}

/// A pid file that holds a pid written in decimal is read back as that pid both when the
/// daemon is stopped and when it is checked, for every pid that fits in an `i32`.
pub proof fn lemma_linux_pid_file_round_trip(pid: u32)
    requires
        pid <= i32::MAX,
    ensures
        linux_stop_target(crate::process::pid_text(pid)) == Ok::<i32, IntErrorKind>(pid as i32),
        linux_running_probe(Some(crate::process::pid_text(pid))) == Some(pid as i32),
{
    crate::process::lemma_trim_decimal(pid);
    crate::numeric::lemma_decimal_parses(pid as nat, true, i32::MIN as int, i32::MAX as int);
    crate::numeric::lemma_decimal_parses(pid as nat, false, 0, u32::MAX as int);
}

/// The Linux desktop manager.
pub struct LinuxManager;

impl LinuxManager {
    /// The binary to start: the bundled daemon, or an error when there is none.
    pub fn start(&self, bundled: Option<&str>) -> (r: Result<String, String>)
        ensures
            match r {
                Ok(b) => bundled_start_spec(opt_view(bundled)) == Ok::<Seq<char>, Seq<char>>(b@),
                Err(e) => bundled_start_spec(opt_view(bundled)) == Err::<Seq<char>, Seq<char>>(e@),
            },
    {
        bundled_start(bundled)
    }

    /// The pid file under the data directory.
    pub fn pid_file_path(&self, data: &str) -> (r: String)
        ensures
            r@ == desktop_pid_path(data@),
    {
        join_path(data, ".daemon/pid")
    }

    /// The process id to send `SIGTERM` to, given the pid file's text, or why the text names
    /// none (then nothing is signalled and the file is kept).
    pub fn stop(&self, content: &str) -> (r: Result<i32, IntErrorKind>)
        ensures
            r == linux_stop_target(content@),
    {
        parse_i32(trim_str(content))
    }

    /// Whether the daemon may run, given the pid file's text (`None` when it cannot be
    /// read): `None` when it does not, else the process id whose life tells.
    pub fn is_running(&self, content: Option<&str>) -> (r: Option<i32>)
        ensures
            r == linux_running_probe(opt_view(content)),
    {
        match content {
            Some(c) => match parse_u32(trim_str(c)) {
                Ok(p) => Some(signal_target(p)),
                Err(_) => None,
            },
            None => None,
        }
    }
}

/// The Windows desktop manager.
pub struct WindowsManager;

impl WindowsManager {
    /// The binary to start: the bundled daemon, or an error when there is none.
    pub fn start(&self, bundled: Option<&str>) -> (r: Result<String, String>)
        ensures
            match r {
                Ok(b) => bundled_start_spec(opt_view(bundled)) == Ok::<Seq<char>, Seq<char>>(b@),
                Err(e) => bundled_start_spec(opt_view(bundled)) == Err::<Seq<char>, Seq<char>>(e@),
            },
    {
        bundled_start(bundled)
    }

    /// The pid file under the data directory, which a stop removes.
    pub fn pid_file_path(&self, data: &str) -> (r: String)
        ensures
            r@ == desktop_pid_path(data@),
    {
        join_path(data, ".daemon/pid")
    }

    /// The daemon is never reported running on Windows.
    pub fn is_running(&self) -> (r: bool)
        ensures
            !r,
    {
        false
    }
}

} // verus!
