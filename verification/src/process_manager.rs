//! Bookkeeping for every subprocess spawned for benchmarking.
//!
//! The registry owns an ordered collection of optional process slots and
//! guarantees that each tracked process is terminated exactly once: an
//! explicit kill removes the slot and decides whether a stop signal is still
//! needed, and a drain removes every slot in turn. In the running tool the
//! registry stands behind a single mutual-exclusion lock and the drain is
//! also wired to the process-wide interrupt; the lock, the signal handler and
//! the operating-system calls live outside the library, which is handed the
//! one observation it needs — whether a process had already exited on its
//! own.

use vstd::prelude::*;

verus! {

/// Errors of the process registry. A lock that cannot be acquired is fatal
/// and never retried; an unknown process identifier signals a bookkeeping
/// defect in the caller; a handler that cannot be installed aborts startup.
#[derive(Debug)]
pub enum ProcessManagerError {
    Lock,
    SetHandler(String),
    ChildNotFound(u32),
}

/// Liveness of one tracked process: it either still runs, or has exited.
/// There is no other state and no way back from `Exited`.
#[derive(Debug, Clone, Copy, PartialEq, Eq, Structural)]
pub enum ProcessState {
    Running,
    Exited,
}

/// An owned handle to one spawned process: its identifier and its liveness.
#[derive(Debug, Clone, Copy, PartialEq, Eq, Structural)]
pub struct ManagedProcess {
    pub pid: u32,
    pub state: ProcessState,
}

/// What the caller must still do to the process it just removed from the
/// registry: nothing, because it had already exited, or signal it to stop
/// and wait for it.
#[derive(Debug, Clone, Copy, PartialEq, Eq, Structural)]
pub enum KillAction {
    AlreadyExited,
    SignalAndWait,
}

/// Whether `slot` is occupied by the process with identifier `pid`.
pub open spec fn slot_holds(slot: Option<ManagedProcess>, pid: u32) -> bool {
    slot matches Some(p) && p.pid == pid
}

/// Whether some occupied slot of `s` holds the identifier `pid`.
pub open spec fn contains_pid(s: Seq<Option<ManagedProcess>>, pid: u32) -> bool {
    exists|i: int| 0 <= i < s.len() && slot_holds(#[trigger] s[i], pid)
}

/// The first slot of `s` whose process has the identifier `pid`, if any.
pub open spec fn spec_find_pid(s: Seq<Option<ManagedProcess>>, pid: u32) -> Option<int>
    decreases s.len(),
{
    if s.len() == 0 {
        None
    } else if slot_holds(s[0], pid) {
        Some(0)
    } else {
        match spec_find_pid(s.drop_first(), pid) {
            Some(i) => Some(i + 1),
            None => None,
        }
    }
}

/// The processes that draining `s` hands out: slots are popped from the end,
/// so the result runs newest first, with empty slots skipped.
pub open spec fn spec_drain(s: Seq<Option<ManagedProcess>>) -> Seq<ManagedProcess>
    decreases s.len(),
{
    if s.len() == 0 {
        Seq::empty()
    } else {
        match s.last() {
            Some(p) => seq![p] + spec_drain(s.drop_last()),
            None => spec_drain(s.drop_last()),
        }
    }
}

/// The state machine of one termination: a process observed to have exited
/// on its own is left alone; a running one is signalled and waited for. In
/// either case the process ends up exited, so terminating is idempotent and
/// an already-exited process is never an error.
pub open spec fn spec_terminate(p: ManagedProcess, already_exited: bool) -> (
    ManagedProcess,
    KillAction,
) {
    (
        ManagedProcess { pid: p.pid, state: ProcessState::Exited },
        if already_exited {
            KillAction::AlreadyExited
        } else {
            KillAction::SignalAndWait
        },
    )
}

/// The registry of live spawned processes: an ordered collection of optional
/// slots. A live process identifier appears in at most one occupied slot.
pub struct ProcessManager {
    processes: Vec<Option<ManagedProcess>>,
}

impl ProcessManager {
    /// The registry's slots, oldest first.
    pub closed spec fn slots(&self) -> Seq<Option<ManagedProcess>> {
        self.processes@
    }

    /// The registry invariant: no identifier occupies two slots.
    pub open spec fn wf(&self) -> bool {
        forall|i: int, j: int|
            0 <= i < j < self.slots().len() ==> !(#[trigger] self.slots()[i] matches Some(p)
                && #[trigger] self.slots()[j] matches Some(q) && p.pid == q.pid)
    }

    /// Creates an empty registry. Installing the process-wide interrupt
    /// listener that drains it belongs to the caller that owns the signals.
    pub fn new() -> (r: Self)
        ensures
            r.slots() =~= Seq::<Option<ManagedProcess>>::empty(),
            r.wf(),
    {
        ProcessManager { processes: Vec::new() }
    }

    /// How many slots the registry holds, occupied or not.
    pub fn len(&self) -> (n: usize)
        ensures
            n == self.slots().len(),
    {
        self.processes.len()
    }

    /// Whether the identifier is registered in some occupied slot.
    pub fn contains(&self, pid: u32) -> (r: bool)
        ensures
            r == contains_pid(self.slots(), pid),
    {
        let n = self.processes.len();
        let mut idx: usize = 0;
        while idx < n
            invariant
                idx <= n,
                n == self.slots().len(),
                forall|j: int| 0 <= j < idx ==> !slot_holds(#[trigger] self.slots()[j], pid),
            decreases n - idx,
        {
            let hit = match &self.processes[idx] {
                Some(p) => p.pid == pid,
                None => false,
            };
            if hit {
                return true;
            }
            idx = idx + 1;
        }
        proof {
            if contains_pid(self.slots(), pid) {
                let i = choose|i: int|
                    0 <= i < self.slots().len() && slot_holds(#[trigger] self.slots()[i], pid);
                assert(!slot_holds(self.slots()[i], pid));
            }
        }
        false
    }

    /// Appends a live process to the registry.
    pub fn push(&mut self, process: ManagedProcess)
        requires
            old(self).wf(),
            !contains_pid(old(self).slots(), process.pid),
            process.state is Running,
        ensures
            final(self).slots() == old(self).slots().push(Some(process)),
            final(self).wf(),
    {
        self.processes.push(Some(process));
        proof {
            assert forall|i: int, j: int| 0 <= i < j < self.slots().len() implies !(
            #[trigger] self.slots()[i] matches Some(p) && #[trigger] self.slots()[j] matches
                Some(q) && p.pid == q.pid) by {
                if j == self.slots().len() - 1 {
                    assert(self.slots()[i] == old(self).slots()[i]);
                    if self.slots()[i] matches Some(p) && p.pid == process.pid {
                        assert(slot_holds(old(self).slots()[i], process.pid));
                    }
                }
            }
        }
    }

    /// Looks a process up by identifier, removes its slot, and decides the
    /// termination action from the observed liveness: success whether or not
    /// the process had already exited on its own, `ChildNotFound` if the
    /// identifier is not registered.
    pub fn kill(&mut self, pid: u32, already_exited: bool) -> (r: Result<
        (ManagedProcess, KillAction),
        ProcessManagerError,
    >)
        requires
            old(self).wf(),
        ensures
            final(self).wf(),
            match spec_find_pid(old(self).slots(), pid) {
                Some(i) => r matches Ok(t) && (old(self).slots()[i] matches Some(p) && p.pid
                    == pid && t == spec_terminate(p, already_exited)) && final(self).slots()
                    == old(self).slots().remove(i),
                None => r matches Err(e) && e is ChildNotFound && final(self).slots() == old(
                    self,
                ).slots(),
            },
            !contains_pid(old(self).slots(), pid) <==> r is Err,
    {
        proof {
            lemma_find_pid_characterises(old(self).slots(), pid);
        }
        let n = self.processes.len();
        let mut idx: usize = 0;
        while idx < n
            invariant
                idx <= n,
                n == self.slots().len(),
                self.slots() == old(self).slots(),
                old(self).wf(),
                forall|j: int| 0 <= j < idx ==> !slot_holds(#[trigger] self.slots()[j], pid),
            decreases n - idx,
        {
            let found = match &self.processes[idx] {
                Some(p) => if p.pid == pid {
                    Some(*p)
                } else {
                    None
                },
                None => None,
            };
            if let Some(p) = found {
                proof {
                    lemma_find_pid_first(old(self).slots(), pid, idx as int);
                    lemma_find_pid_characterises(old(self).slots(), pid);
                    lemma_remove_keeps_wf(old(self).slots(), idx as int);
                }
                let _ = self.processes.remove(idx);
                let terminated = ManagedProcess { pid: p.pid, state: ProcessState::Exited };
                let action = if already_exited {
                    KillAction::AlreadyExited
                } else {
                    KillAction::SignalAndWait
                };
                return Ok((terminated, action));
            }
            idx = idx + 1;
        }
        proof {
            lemma_find_pid_characterises(old(self).slots(), pid);
            if contains_pid(old(self).slots(), pid) {
                let i = choose|i: int|
                    0 <= i < old(self).slots().len() && slot_holds(
                        #[trigger] old(self).slots()[i],
                        pid,
                    );
                assert(!slot_holds(self.slots()[i], pid));
            }
        }
        Err(ProcessManagerError::ChildNotFound(pid))
    }

    /// Drains the registry: pops one slot at a time until none is left and
    /// hands back every process that was registered, newest first, for the
    /// caller to terminate. The registry is empty afterwards, whatever it
    /// held, so a second drain is a no-op.
    pub fn kill_all(&mut self) -> (removed: Vec<ManagedProcess>)
        ensures
            final(self).slots() =~= Seq::<Option<ManagedProcess>>::empty(),
            removed@ == spec_drain(old(self).slots()),
    {
        let mut removed: Vec<ManagedProcess> = Vec::new();
        proof {
            assert(removed@ + spec_drain(self.slots()) =~= spec_drain(self.slots()));
        }
        while self.processes.len() > 0
            invariant
                spec_drain(old(self).slots()) == removed@ + spec_drain(self.slots()),
            decreases self.slots().len(),
        {
            let ghost prev_slots = self.slots();
            let ghost prev_removed = removed@;
            let slot = self.processes.pop().unwrap();
            proof {
                assert(prev_slots.drop_last() =~= self.slots());
                assert(slot == prev_slots.last());
            }
            if let Some(process) = slot {
                removed.push(process);
                proof {
                    assert(removed@ + spec_drain(self.slots()) =~= prev_removed + (seq![process]
                        + spec_drain(self.slots())));
                }
            }
        }
        proof {
            assert(removed@ + spec_drain(self.slots()) =~= removed@);
        }
        removed
    }
}

/// Terminates one process already removed from the registry, as
/// [`spec_terminate`] states: if the liveness probe found it already exited,
/// nothing is left to do; otherwise it is to be signalled and waited for.
/// Never an error, whichever way the process ended.
pub fn kill_process(process: ManagedProcess, already_exited: bool) -> (r: (
    ManagedProcess,
    KillAction,
))
    ensures
        r == spec_terminate(process, already_exited),
{
    let terminated = ManagedProcess { pid: process.pid, state: ProcessState::Exited };
    let action = if already_exited {
        KillAction::AlreadyExited
    } else {
        KillAction::SignalAndWait
    };
    (terminated, action)
}

/// Terminating an already-exited process asks for no signal; terminating a
/// running one asks for a signal and a wait. Both end exited.
pub proof fn lemma_terminate_always_exits(p: ManagedProcess, already_exited: bool)
    ensures
        spec_terminate(p, already_exited).0.state is Exited,
        spec_terminate(p, already_exited).0.pid == p.pid,
        spec_terminate(p, already_exited).1 is AlreadyExited <==> already_exited,
{
}

/// Draining a registry and terminating each drained process, under any
/// sequence of liveness observations, leaves every formerly registered
/// process exited; together with the drain's own contract — the registry
/// ends empty — no process remains running afterwards.
pub proof fn lemma_drain_terminates_every_process(
    slots: Seq<Option<ManagedProcess>>,
    observed: Seq<bool>,
)
    requires
        observed.len() == spec_drain(slots).len(),
    ensures
        forall|i: int|
            0 <= i < spec_drain(slots).len() ==> (#[trigger] spec_terminate(
                spec_drain(slots)[i],
                observed[i],
            )).0.state is Exited,
{
}

/// `spec_find_pid` returns `None` exactly when no occupied slot holds `pid`,
/// and otherwise an in-range index holding `pid`.
proof fn lemma_find_pid_characterises(s: Seq<Option<ManagedProcess>>, pid: u32)
    ensures
        spec_find_pid(s, pid) is None <==> !contains_pid(s, pid),
        spec_find_pid(s, pid) matches Some(i) ==> 0 <= i < s.len() && slot_holds(s[i], pid),
    decreases s.len(),
{
    if s.len() > 0 {
        lemma_find_pid_characterises(s.drop_first(), pid);
        if !slot_holds(s[0], pid) {
            if contains_pid(s, pid) {
                let i = choose|i: int| 0 <= i < s.len() && slot_holds(#[trigger] s[i], pid);
                assert(s.drop_first()[i - 1] == s[i]);
                assert(contains_pid(s.drop_first(), pid));
            }
            if contains_pid(s.drop_first(), pid) {
                let i = choose|i: int|
                    0 <= i < s.drop_first().len() && slot_holds(
                        #[trigger] s.drop_first()[i],
                        pid,
                    );
                assert(slot_holds(s[i + 1], pid));
                assert(contains_pid(s, pid));
            }
            match spec_find_pid(s, pid) {
                Some(k) => {
                    assert(s[k] == s.drop_first()[k - 1]);
                },
                None => {},
            }
        }
    }
}

/// If slot `k` holds `pid` and no earlier slot does, the lookup finds `k`.
proof fn lemma_find_pid_first(s: Seq<Option<ManagedProcess>>, pid: u32, k: int)
    requires
        0 <= k < s.len(),
        slot_holds(s[k], pid),
        forall|j: int| 0 <= j < k ==> !slot_holds(#[trigger] s[j], pid),
    ensures
        spec_find_pid(s, pid) == Some(k),
    decreases s.len(),
{
    if k > 0 {
        assert(!slot_holds(s[0], pid));
        assert forall|j: int| 0 <= j < k - 1 implies !slot_holds(
            #[trigger] s.drop_first()[j],
            pid,
        ) by {
            assert(s.drop_first()[j] == s[j + 1]);
        }
        assert(s.drop_first()[k - 1] == s[k]);
        lemma_find_pid_first(s.drop_first(), pid, k - 1);
    }
}

/// Removing a slot keeps the uniqueness of the remaining identifiers.
proof fn lemma_remove_keeps_wf(s: Seq<Option<ManagedProcess>>, k: int)
    requires
        0 <= k < s.len(),
        forall|i: int, j: int|
            0 <= i < j < s.len() ==> !(#[trigger] s[i] matches Some(p) && #[trigger] s[j]
                matches Some(q) && p.pid == q.pid),
    ensures
        forall|i: int, j: int|
            0 <= i < j < s.remove(k).len() ==> !(#[trigger] s.remove(k)[i] matches Some(p)
                && #[trigger] s.remove(k)[j] matches Some(q) && p.pid == q.pid),
{
    assert forall|i: int, j: int|
        0 <= i < j < s.remove(k).len() implies !(#[trigger] s.remove(k)[i] matches Some(p)
        && #[trigger] s.remove(k)[j] matches Some(q) && p.pid == q.pid) by {
        let i0 = if i < k {
            i
        } else {
            i + 1
        };
        let j0 = if j < k {
            j
        } else {
            j + 1
        };
        assert(s.remove(k)[i] == s[i0]);
        assert(s.remove(k)[j] == s[j0]);
    }
}

} // verus!
