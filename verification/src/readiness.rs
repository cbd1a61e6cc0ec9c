//! The readiness gate. The proxy subprocess reports progress only through
//! unstructured log text, so readiness is "the log contains the fixed
//! bootstrap-complete marker AND the tag of this very process id". The tag
//! keeps a stale log written by an earlier instance under the same path from
//! ever counting as ready. Polling and sleeping sit in the thin shim around
//! the library; the decision and the cached flag live here.

use vstd::prelude::*;
use vstd::string::StringExecFns;

use crate::state::BridgeState;
use crate::text::{contains_str, dec_digits, lemma_dec_value_of_digits, seq_contains, u32_to_dec};

verus! {

/// The line fragment the proxy emits when its bootstrap completes.
pub open spec fn bootstrap_marker() -> Seq<char> {
    "Bootstrapped 100% (done):"@
}

/// The tag this process writes at the top of its own log.
pub open spec fn pid_key_of(pid: u32) -> Seq<char> {
    "process: "@ + dec_digits(pid as nat)
}

/// Renders the tag for this process id.
pub fn get_pid_key(pid: u32) -> (r: String)
    ensures
        r@ == pid_key_of(pid),
{
    let mut s = "process: ".to_owned();
    let d = u32_to_dec(pid);
    s.append(d.as_str());
    s
}

/// Readiness as observed in the log text: the bootstrap marker is there, and
/// so is this process's own tag.
pub open spec fn log_shows_ready(log: Seq<char>, pid: u32) -> bool {
    seq_contains(log, bootstrap_marker()) && seq_contains(log, pid_key_of(pid))
}

/// One inspection of the log text.
pub fn log_indicates_ready(log: &str, pid: u32) -> (r: bool)
    ensures
        r == log_shows_ready(log@, pid),
{
    let key = get_pid_key(pid);
    contains_str(log, "Bootstrapped 100% (done):") && contains_str(log, key.as_str())
}

/// One poll of the readiness gate: checks the log and caches a success in the
/// ready flag. The flag is never cleared here — readiness does not revert
/// within a process lifetime.
pub fn poll_ready_step(st: &mut BridgeState, log: &str, pid: u32) -> (r: bool)
    ensures
        r == log_shows_ready(log@, pid),
        final(st).tor_ready == (old(st).tor_ready || r),
        final(st).tor_started == old(st).tor_started,
        final(st).debug_mode == old(st).debug_mode,
{
    if log_indicates_ready(log, pid) {
        crate::state::set_tor_is_ready(st, true);
        true
    } else {
        false
    }
}

/// Readiness scoping law: a log that lacks this process's own tag never
/// counts as ready, whatever markers and foreign tags it carries.
pub proof fn lemma_foreign_log_never_ready(log: Seq<char>, pid: u32)
    requires
        !seq_contains(log, pid_key_of(pid)),
    ensures
        !log_shows_ready(log, pid),
{
}

/// Distinct processes carry distinct tags.
pub proof fn lemma_pid_key_injective(a: u32, b: u32)
    requires
        a != b,
    ensures
        pid_key_of(a) != pid_key_of(b),
{
    lemma_dec_value_of_digits(a as nat);
    lemma_dec_value_of_digits(b as nat);
    if pid_key_of(a) == pid_key_of(b) {
        let p = "process: "@;
        let ka = pid_key_of(a);
        assert(dec_digits(a as nat) =~= ka.subrange(p.len() as int, ka.len() as int));
        assert(dec_digits(b as nat) =~= ka.subrange(p.len() as int, ka.len() as int));
    }
}

} // verus!
