//! The proxy subprocess's launch configuration and the supervisor's
//! reactions. The subprocess is spawned at most once (the flag transition
//! lives in `state`); a supervising task watches it, and when it goes away the
//! host emits one diagnostic status reply and exits with the subprocess's own
//! code — the bridge fails closed rather than serving direct-only traffic.

use vstd::prelude::*;

use crate::config::{Config, Identity};
use crate::messages::ResMessage;

verus! {

/// Everything the proxy subprocess is started with: a private data directory,
/// a disabled control port, logging into the shared diagnostic log, and the
/// process-local SOCKS credentials and port.
pub struct TorLaunchConfig {
    pub data_dir: String,
    pub control_port: u16,
    pub log_file: String,
    pub quiet: bool,
    pub socks_username: String,
    pub socks_password: String,
    pub socks_port: u16,
}

/// Assembles the launch configuration from the process context.
pub fn tor_launch_config(cfg: &Config, ident: &Identity) -> (r: TorLaunchConfig)
    ensures
        r.data_dir@ == cfg.tor_dir@,
        r.control_port == 0,
        r.log_file@ == cfg.log_file@,
        r.quiet,
        r.socks_username@ == ident.username@,
        r.socks_password@ == ident.password@,
        r.socks_port == ident.port,
{
    TorLaunchConfig {
        data_dir: cfg.tor_dir.clone(),
        control_port: 0,
        log_file: cfg.log_file.clone(),
        quiet: true,
        socks_username: ident.username.clone(),
        socks_password: ident.password.clone(),
        socks_port: ident.port,
    }
}

/// What the supervising task observed of the subprocess.
#[derive(Clone, Copy, Debug, PartialEq, Eq, Structural)]
pub enum TorOutcome {
    /// It ran and terminated with this code.
    Exited(u8),
    /// It could not be spawned at all.
    SpawnFailed,
}

/// The header pairs a supervisor status reply carries: the internal marker
/// and a description.
pub open spec fn has_supervisor_headers(h: Seq<(String, String)>, desc: Seq<char>) -> bool {
    h.len() == 2 && h[0].0@ == "X-Alby-internal"@ && h[0].1@ == "true"@ && h[1].0@
        == "X-Alby-description"@ && h[1].1@ == desc
}

fn supervisor_headers(desc: &str) -> (r: Vec<(String, String)>)
    ensures
        has_supervisor_headers(r@, desc@),
{
    let mut r: Vec<(String, String)> = Vec::new();
    r.push(("X-Alby-internal".to_owned(), "true".to_owned()));
    r.push(("X-Alby-description".to_owned(), desc.to_owned()));
    r
}

/// The supervisor's whole reaction to the subprocess going away: the one
/// diagnostic status reply to emit, and the code the host process then exits
/// with. A normal subprocess exit is mirrored in both; a spawn failure is a
/// 502 reply and exit code 1.
pub fn supervisor_reply(outcome: &TorOutcome) -> (r: (ResMessage, i32))
    ensures
        match *outcome {
            TorOutcome::Exited(c) => {
                &&& r.0.id@ == "status"@
                &&& r.0.status == c as u16
                &&& r.0.body@ == "terminate"@
                &&& has_supervisor_headers(r.0.headers@, "Tor thread was terminated"@)
                &&& r.1 == c as i32
            },
            TorOutcome::SpawnFailed => {
                &&& r.0.id@ == "status"@
                &&& r.0.status == 502
                &&& r.0.body@ == "error"@
                &&& has_supervisor_headers(r.0.headers@, "Can not spawn Tor thread"@)
                &&& r.1 == 1
            },
        },
{
    match outcome {
        TorOutcome::Exited(c) => {
            let msg = ResMessage {
                id: "status".to_owned(),
                status: *c as u16,
                body: "terminate".to_owned(),
                headers: supervisor_headers("Tor thread was terminated"),
            };
            (msg, *c as i32)
        },
        TorOutcome::SpawnFailed => {
            let msg = ResMessage {
                id: "status".to_owned(),
                status: 502,
                body: "error".to_owned(),
                headers: supervisor_headers("Can not spawn Tor thread"),
            };
            (msg, 1)
        },
    }
}

} // verus!
