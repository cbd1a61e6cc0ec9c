//! The bridge's shared flags and their transitions. The proxy goes from
//! not-started to started at most once per process lifetime, and from
//! not-ready to ready once the readiness gate has seen the bootstrap marker;
//! neither flag ever goes back.

use vstd::prelude::*;

verus! {

/// The mutable flags every component consults: whether the proxy subprocess
/// has been launched, whether it has reported ready, and whether verbose
/// logging is on.
pub struct BridgeState {
    pub tor_started: bool,
    pub tor_ready: bool,
    pub debug_mode: bool,
}

pub fn new_state(debug_mode: bool) -> (r: BridgeState)
    ensures
        !r.tor_started,
        !r.tor_ready,
        r.debug_mode == debug_mode,
{
    BridgeState { tor_started: false, tor_ready: false, debug_mode }
}

pub fn is_tor_started(st: &BridgeState) -> (r: bool)
    ensures
        r == st.tor_started,
{
    st.tor_started
}

pub fn set_tor_is_started(st: &mut BridgeState, val: bool)
    ensures
        final(st).tor_started == val,
        final(st).tor_ready == old(st).tor_ready,
        final(st).debug_mode == old(st).debug_mode,
{
    st.tor_started = val;
}

pub fn is_tor_ready(st: &BridgeState) -> (r: bool)
    ensures
        r == st.tor_ready,
{
    st.tor_ready
}

pub fn set_tor_is_ready(st: &mut BridgeState, val: bool)
    ensures
        final(st).tor_ready == val,
        final(st).tor_started == old(st).tor_started,
        final(st).debug_mode == old(st).debug_mode,
{
    st.tor_ready = val;
}

pub fn is_debug_mode(st: &BridgeState) -> (r: bool)
    ensures
        r == st.debug_mode,
{
    st.debug_mode
}

pub fn set_debug_mode(st: &mut BridgeState, val: bool)
    ensures
        final(st).debug_mode == val,
        final(st).tor_started == old(st).tor_started,
        final(st).tor_ready == old(st).tor_ready,
{
    st.debug_mode = val;
}

/// One attempted launch: the state after it, and whether this attempt is the
/// one that actually spawns the subprocess.
pub open spec fn launch_transition(s: BridgeState) -> (BridgeState, bool) {
    ((BridgeState { tor_started: true, ..s }), !s.tor_started)
}

/// Atomic test-and-set for the launch: returns true on exactly the call that
/// finds the proxy not yet started, and marks it started.
pub fn try_begin_launch(st: &mut BridgeState) -> (launch: bool)
    ensures
        (*final(st), launch) == launch_transition(*old(st)),
        launch == !old(st).tor_started,
        final(st).tor_started,
        final(st).tor_ready == old(st).tor_ready,
        final(st).debug_mode == old(st).debug_mode,
{
    let launch = !st.tor_started;
    st.tor_started = true;
    launch
}

/// How many of `n` consecutive launch attempts starting from `s` spawn the
/// subprocess.
pub open spec fn launches_in(s: BridgeState, n: nat) -> nat
    decreases n,
{
    if n == 0 {
        0
    } else {
        let (s2, l) = launch_transition(s);
        (if l {
            1nat
        } else {
            0nat
        }) + launches_in(s2, (n - 1) as nat)
    }
}

/// At-most-once launch: however many times the launch is attempted in
/// sequence, the subprocess is spawned at most once — exactly once when the
/// proxy was not yet started and there is at least one attempt, and never
/// when it was already started.
pub proof fn lemma_launch_at_most_once(s: BridgeState, n: nat)
    ensures
        launches_in(s, n) <= 1,
        s.tor_started ==> launches_in(s, n) == 0,
        !s.tor_started && n > 0 ==> launches_in(s, n) == 1,
    decreases n,
{
    if n > 0 {
        let (s2, _) = launch_transition(s);
        lemma_launch_at_most_once(s2, (n - 1) as nat);
    }
}

} // verus!
