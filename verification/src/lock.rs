//! The instance guard: at most one bridge process may run against a given
//! working directory. The guard is a lock file holding the owner's process id
//! as text; a lock only counts while a process with that id is alive, so a
//! crashed owner's stale file never blocks a new instance. This module holds
//! the guard's decision logic and its laws over an explicit model of the lock
//! slot; the thin filesystem shim around it performs the actual reads,
//! exclusive creates and removals.

use vstd::prelude::*;

use crate::text::{dec_digits, lemma_dec_roundtrip, opt_str_view, parse_u32, parse_u32_of,
    u32_to_dec};

verus! {

/// Reads the process id recorded in a lock file's content: optional
/// surrounding whitespace around a decimal number that fits a `u32`.
pub fn parse_pid(content: &str) -> (r: Option<u32>)
    ensures
        r == parse_u32_of(content@),
{
    parse_u32(content)
}

/// The lock slot as it stands on disk: the lock file's content, if the file
/// exists.
pub struct LockSlot {
    pub content: Option<String>,
}

/// Whether a slot proves a live holder: it holds a parseable process id and a
/// process with that id is alive. Anything else — no file, unreadable digits,
/// a dead holder — is stale and never blocks.
pub open spec fn lock_blocks(content: Option<Seq<char>>, alive: Seq<u32>) -> bool {
    match content {
        Some(c) => match parse_u32_of(c) {
            Some(p) => alive.contains(p),
            None => false,
        },
        None => false,
    }
}

/// Witness that this process holds the lock.
pub struct LockGuard {
    pub pid: u32,
}

fn pid_in(alive: &Vec<u32>, pid: u32) -> (r: bool)
    ensures
        r == alive@.contains(pid),
{
    let n = alive.len();
    let mut i: usize = 0;
    while i < n
        invariant
            0 <= i <= n == alive@.len(),
            forall|k: int| 0 <= k < i ==> alive@[k] != pid,
        decreases n - i,
    {
        if alive[i] == pid {
            return true;
        }
        i += 1;
    }
    false
}

/// Tries to take the lock: fails exactly when the slot proves a live holder;
/// otherwise replaces whatever stale content there was with this process's id
/// and hands back the guard.
pub fn acquire(slot: &mut LockSlot, alive: &Vec<u32>, my_pid: u32) -> (r: Option<LockGuard>)
    ensures
        r is Some <==> !lock_blocks(opt_str_view(old(slot).content), alive@),
        r is None ==> *final(slot) == *old(slot),
        r matches Some(g) ==> g.pid == my_pid && (match final(slot).content {
            Some(c) => c@ == dec_digits(my_pid as nat),
            None => false,
        }),
{
    let blocked = match &slot.content {
        Some(c) => match parse_pid(c.as_str()) {
            Some(p) => pid_in(alive, p),
            None => false,
        },
        None => false,
    };
    if blocked {
        return None;
    }
    slot.content = Some(u32_to_dec(my_pid));
    Some(LockGuard { pid: my_pid })
}

/// Releases the lock: the slot is empty afterwards, whoever held it.
pub fn release(slot: &mut LockSlot, guard: LockGuard)
    ensures
        final(slot).content is None,
{
    let _ = guard;
    slot.content = None;
}

/// Lock release law: once the guard is gone and the slot emptied, no set of
/// live processes blocks a subsequent acquire.
pub proof fn lemma_released_slot_admits_acquire(alive: Seq<u32>)
    ensures
        !lock_blocks(None, alive),
{
}

/// Single instance law: the content a successful acquire writes blocks every
/// other acquire for as long as the owner is alive.
pub proof fn lemma_lock_excludes_while_alive(my_pid: u32, alive: Seq<u32>)
    requires
        alive.contains(my_pid),
    ensures
        lock_blocks(Some(dec_digits(my_pid as nat)), alive),
{
    lemma_dec_roundtrip(my_pid);
}

/// Stale lock law: a slot whose holder is dead, or whose content does not
/// parse as a process id, never blocks an acquire.
pub proof fn lemma_stale_lock_never_blocks(content: Seq<char>, alive: Seq<u32>)
    requires
        match parse_u32_of(content) {
            Some(p) => !alive.contains(p),
            None => true,
        },
    ensures
        !lock_blocks(Some(content), alive),
{
}

} // verus!
