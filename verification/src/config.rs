//! The process-wide context: paths chosen at startup, and the identity a
//! process mints once — a random local SOCKS port, random proxy credentials,
//! and its own process id. The identity never changes for the life of the
//! process; the pid also tags the diagnostic log so a stale log from an
//! earlier instance cannot satisfy the readiness gate.

use vstd::prelude::*;
use vstd::string::StringExecFns;

use crate::cli::CliOptions;

verus! {

/// ASCII letters and digits: what the random credential characters are drawn
/// from.
pub open spec fn is_alnum(c: char) -> bool {
    ('0' as u32 <= c as u32 && c as u32 <= '9' as u32) || ('A' as u32 <= c as u32 && c as u32
        <= 'Z' as u32) || ('a' as u32 <= c as u32 && c as u32 <= 'z' as u32)
}

/// What a process mints once at startup and keeps for its lifetime.
pub struct Identity {
    pub port: u16,
    pub username: String,
    pub password: String,
    pub pid: u32,
}

/// The identity's invariant: the port lies in the fixed non-privileged band,
/// and the username and the password are ten random alphanumerics each.
pub open spec fn identity_wf(id: Identity) -> bool {
    &&& 19050 <= id.port <= 29050
    &&& id.username@.len() == 10
    &&& forall|i: int| 0 <= i < 10 ==> is_alnum(#[trigger] id.username@[i])
    &&& id.password@.len() == 10
    &&& forall|i: int| 0 <= i < 10 ==> is_alnum(#[trigger] id.password@[i])
}

/// Relies on `rand::thread_rng` and `Rng::gen_range`: a uniformly drawn value
/// inside the requested half-open range, here 19050..29051.
#[verifier::external_body]
fn random_port() -> (r: u16)
    ensures
        19050 <= r <= 29050,
{
    let mut rng = rand::thread_rng();
    rand::Rng::gen_range(&mut rng, 19050..29051)
}

/// Relies on `rand::distributions::Alphanumeric`: every sampled byte is an
/// ASCII letter or digit, and exactly ten are taken.
#[verifier::external_body]
fn random_alnum10() -> (r: String)
    ensures
        r@.len() == 10,
        forall|i: int| 0 <= i < 10 ==> is_alnum(#[trigger] r@[i]),
{
    let mut rng = rand::thread_rng();
    std::iter::repeat(())
        .map(|()| rand::Rng::sample(&mut rng, rand::distributions::Alphanumeric))
        .map(char::from)
        .take(10)
        .collect()
}

/// Mints the identity for this process: random port, random credentials, the
/// given process id.
pub fn new_identity(pid: u32) -> (r: Identity)
    ensures
        identity_wf(r),
        r.pid == pid,
{
    let port = random_port();
    let username = random_alnum10();
    let password = random_alnum10();
    Identity { port, username, password, pid }
}

pub fn get_tor_port(id: &Identity) -> (r: u16)
    ensures
        r == id.port,
{
    id.port
}

pub fn get_tor_username(id: &Identity) -> (r: String)
    ensures
        r@ == id.username@,
{
    id.username.clone()
}

pub fn get_tor_password(id: &Identity) -> (r: String)
    ensures
        r@ == id.password@,
{
    id.password.clone()
}

/// The paths the bridge works with, fixed at startup.
pub struct Config {
    pub log_file: String,
    pub tor_dir: String,
}

/// Builds the configuration from parsed options, falling back to the given
/// defaults where an option is absent.
pub fn config_from_options(opts: CliOptions, default_log: String, default_tor_dir: String) -> (r:
    Config)
    ensures
        r.log_file@ == (match opts.log_file {
            Some(s) => s@,
            None => default_log@,
        }),
        r.tor_dir@ == (match opts.tor_dir {
            Some(s) => s@,
            None => default_tor_dir@,
        }),
{
    let log_file = match opts.log_file {
        Some(s) => s,
        None => default_log,
    };
    let tor_dir = match opts.tor_dir {
        Some(s) => s,
        None => default_tor_dir,
    };
    Config { log_file, tor_dir }
}

pub fn get_logfile_path(cfg: &Config) -> (r: String)
    ensures
        r@ == cfg.log_file@,
{
    cfg.log_file.clone()
}

pub fn get_tor_dir_path(cfg: &Config) -> (r: String)
    ensures
        r@ == cfg.tor_dir@,
{
    cfg.tor_dir.clone()
}

/// The lock file sits beside the log file, under the log file's name with a
/// fixed suffix.
pub fn get_lock_file_path(cfg: &Config) -> (r: String)
    ensures
        r@ == cfg.log_file@ + ".process"@,
{
    let mut p = cfg.log_file.clone();
    p.append(".process");
    p
}

} // verus!
