//! Requests that start background jobs (backups, installs) or talk to the
//! running server, and the checks made before the job is started.
use vstd::prelude::*;
use crate::text::{chars_of, contains, has_substring, trim, trimmed, concat};

verus! {

broadcast use vstd::string::group_string_axioms;

/// File name of the server executable in an installation's root.
pub const SERVER_EXE_NAME: &'static str = "WindroseServer.exe";

/// Path of the server executable in the `R5\Binaries\Win64` directory,
/// relative to an installation's root.
pub const SHIPPING_EXE_PATH: &'static str = "R5\\Binaries\\Win64\\WindroseServer.exe";

/// A text command for the running server.
pub struct CommandRequest {
    pub command: String,
}

/// The command to send: the request's text without surrounding whitespace,
/// which must not be empty.
pub fn command_to_send(req: &CommandRequest) -> (r: Result<String, &'static str>)
    ensures
        trim(req.command@).len() == 0 <==> r is Err,
        r matches Ok(c) ==> c@ == trim(req.command@),
        r matches Err(e) ==> e@ == "command must not be empty"@,
{
    let cmd = trimmed(req.command.as_str());
    if cmd.as_str().is_empty() {
        return Err("command must not be empty");
    }
    Ok(cmd)
}

/// The line written to the server's standard input for a command.
pub fn stdin_line(cmd: &str) -> (r: String)
    ensures
        r@ == cmd@ + "\n"@,
{
    concat(cmd, "\n")
}

/// Request to copy server files from `source` to `destination`.
pub struct RunInstallRequest {
    pub source: String,
    pub destination: String,
}

/// The reason an install request is refused, given whether each path is
/// absolute on this machine.
pub open spec fn install_request_error(
    source: Seq<char>,
    destination: Seq<char>,
    source_absolute: bool,
    destination_absolute: bool,
) -> Option<Seq<char>> {
    if source.len() == 0 || destination.len() == 0 {
        Some("source and destination must not be empty"@)
    } else if !source_absolute {
        Some("source must be an absolute path"@)
    } else if !destination_absolute {
        Some("destination must be an absolute path"@)
    } else {
        None
    }
}

/// Checks an install request, given whether each path is absolute.
pub fn check_install_paths(
    req: &RunInstallRequest,
    source_absolute: bool,
    destination_absolute: bool,
) -> (r: Result<(), &'static str>)
    ensures
        match install_request_error(
            req.source@,
            req.destination@,
            source_absolute,
            destination_absolute,
        ) {
            None => r is Ok,
            Some(m) => r matches Err(e) && e@ == m,
        },
{
    if req.source.as_str().is_empty() || req.destination.as_str().is_empty() {
        return Err("source and destination must not be empty");
    }
    if !source_absolute {
        return Err("source must be an absolute path");
    }
    if !destination_absolute {
        return Err("destination must be an absolute path");
    }
    Ok(())
}

/// A path with no separator (`/`, `\\`) and no drive mark (`:`): a bare
/// relative name on every platform.
pub open spec fn bare_relative_path(p: Seq<char>) -> bool {
    forall|i: int| 0 <= i < p.len() ==> p[i] != '/' && p[i] != '\\' && p[i] != ':'
}

/// `Path::is_absolute`. Whether a path is absolute depends on the platform
/// (a root `/` on Unix; a drive or UNC prefix and a root on Windows), so the
/// contract states only what holds on each: a path with neither separator nor
/// drive mark is not absolute.
#[verifier::external_body]
fn path_is_absolute(p: &str) -> (r: bool)
    ensures
        r ==> !bare_relative_path(p@),
{
    std::path::Path::new(p).is_absolute()
}

/// Checks an install request on this machine: both paths must be given and
/// absolute.
pub fn validate_install_request(req: &RunInstallRequest) -> (r: Result<(), &'static str>)
    ensures
        (req.source@.len() == 0 || req.destination@.len() == 0) ==> (r matches Err(e) && e@
            == "source and destination must not be empty"@),
        r is Ok ==> req.source@.len() > 0 && req.destination@.len() > 0,
        req.source@.len() > 0 && req.destination@.len() > 0 && bare_relative_path(req.source@)
            ==> (r matches Err(e) && e@ == "source must be an absolute path"@),
        req.destination@.len() > 0 && bare_relative_path(req.destination@) ==> r is Err,
        exists|sa: bool, da: bool|
            #![trigger install_request_error(req.source@, req.destination@, sa, da)]
            match install_request_error(req.source@, req.destination@, sa, da) {
                None => r is Ok,
                Some(m) => r matches Err(e) && e@ == m,
            },
{
    let source_absolute = path_is_absolute(req.source.as_str());
    let destination_absolute = path_is_absolute(req.destination.as_str());
    let r = check_install_paths(req, source_absolute, destination_absolute);
    assert(match install_request_error(
        req.source@,
        req.destination@,
        source_absolute,
        destination_absolute,
    ) {
        None => r is Ok,
        Some(m) => r matches Err(e) && e@ == m,
    });
    r
}

/// Refuses to start an install while one is running.
pub fn check_install_start(installing: bool) -> (r: Result<(), String>)
    ensures
        r is Ok <==> !installing,
        r matches Err(e) ==> e@ == "An install is already in progress"@,
{
    if installing {
        return Err("An install is already in progress".to_string());
    }
    Ok(())
}

/// Request to take a backup, with an optional label.
pub struct CreateBackupRequest {
    pub label: Option<String>,
}

/// The directory to back up: backups need a configured working directory and
/// no other backup running.
pub fn backup_source(running: bool, working_dir: &Option<String>) -> (r: Result<String, String>)
    ensures
        running ==> (r matches Err(e) && e@ == "A backup is already in progress"@),
        !running && working_dir is None ==> (r matches Err(e) && e@
            == "server_working_dir is not configured; cannot determine what to back up"@),
        !running ==> (working_dir matches Some(d) ==> (r matches Ok(s) && s@ == d@)),
{
    if running {
        return Err("A backup is already in progress".to_string());
    }
    match working_dir {
        Some(d) => Ok(d.clone()),
        None => Err(
            "server_working_dir is not configured; cannot determine what to back up".to_string(),
        ),
    }
}

/// The lower-case form of `s` that `str::to_lowercase` computes (Unicode
/// case mapping).
pub uninterp spec fn unicode_lowercase(s: Seq<char>) -> Seq<char>;

/// `str::to_lowercase`.
#[verifier::external_body]
fn to_lowercase(s: &str) -> (r: String)
    ensures
        r@ == unicode_lowercase(s@),
{
    s.to_lowercase()
}

/// A directory of this name holds a Windrose installation: its lower-case
/// form contains `windrose`.
pub open spec fn names_windrose(name: Seq<char>) -> bool {
    contains(unicode_lowercase(name), "windrose"@)
}

/// Whether a directory name marks a Windrose installation.
pub fn is_windrose_dir_name(name: &str) -> (r: bool)
    ensures
        r == names_windrose(name@),
{
    let lower = to_lowercase(name);
    let cs = chars_of(lower.as_str());
    has_substring(cs.as_slice(), "windrose")
}

/// A Windrose server found near the manager.
#[derive(Clone, Debug)]
pub struct DetectedServer {
    /// The server executable.
    pub executable: String,
    /// Its working directory (`R5` under the installation root).
    pub working_dir: String,
    /// Its log file.
    pub log_file_path: String,
}

} // verus!
