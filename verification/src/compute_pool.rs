//! Sizing and bookkeeping of the compute pool that runs simulations off the async runtime.

use vstd::prelude::*;
use crate::decimal::{push_decimal, decimal_text};

verus! {

/// How the compute pool is built.
#[derive(Clone, Debug)]
pub struct ComputePoolConfig {
    pub num_threads: usize,
    pub thread_name_prefix: String,
    pub stack_size: Option<usize>,
}

/// Counters reported by the compute pool.
#[derive(Clone, Copy, Debug)]
pub struct ComputePoolStats {
    pub submitted: u64,
    pub completed: u64,
    pub num_threads: u64,
    pub in_flight_count: u64,
}

/// The number of worker threads for a machine with `cores` cores: at least 2, at most 8.
pub open spec fn spec_worker_threads(cores: nat) -> nat {
    if cores < 2 {
        2
    } else if cores > 8 {
        8
    } else {
        cores
    }
}

/// Stack size of each worker thread: 4 MiB.
pub const WORKER_STACK_SIZE: usize = 4194304;

impl ComputePoolConfig {
    /// The default configuration for a machine whose available parallelism is `detected`
    /// (4 cores are assumed when it is unknown).
    pub fn for_parallelism(detected: Option<usize>) -> (config: ComputePoolConfig)
        ensures
            config.num_threads as nat == spec_worker_threads(
                match detected {
                    Some(n) => n as nat,
                    None => 4,
                },
            ),
            config.thread_name_prefix@ == "sinan-micro-mag"@,
            config.stack_size == Some(WORKER_STACK_SIZE),
    {
        let cores = match detected {
            Some(n) => n,
            None => 4,
        };
        let capped = if cores > 8 { 8 } else { cores };
        let num_threads = if capped < 2 { 2 } else { capped };
        ComputePoolConfig {
            num_threads,
            thread_name_prefix: String::from_str("sinan-micro-mag"),
            stack_size: Some(WORKER_STACK_SIZE),
        }
    }
}

/// The name of worker thread `index`: the prefix, a hyphen and the index.
pub fn thread_name(prefix: &str, index: usize) -> (name: String)
    ensures
        name@ == prefix@ + "-"@ + decimal_text(index as nat),
{
    let mut name = String::from_str(prefix);
    name.append("-");
    push_decimal(&mut name, index as u64);
    name
}

/// The position of the first occurrence of `name` in `names`, if any.
pub open spec fn first_position(names: Seq<Seq<char>>, name: Seq<char>) -> Option<int> {
    if exists|i: int| 0 <= i < names.len() && names[i] == name {
        Some(
            choose|i: int|
                0 <= i < names.len() && names[i] == name && forall|j: int|
                    0 <= j < i ==> names[j] != name,
        )
    } else {
        None
    }
}

/// The in-flight list once `name` has finished: its first occurrence is replaced by the
/// last entry, which is dropped (a swap-remove); unchanged when `name` is not in flight.
pub open spec fn spec_finish(names: Seq<Seq<char>>, name: Seq<char>) -> Seq<Seq<char>> {
    match first_position(names, name) {
        Some(i) => names.update(i, names.last()).drop_last(),
        None => names,
    }
}

/// What the pool has been handed and what it has finished: the submitted and completed
/// counters (which wrap as `u64` counters do) and the names of the tasks in flight.
pub struct PoolLedger {
    submitted: u64,
    completed: u64,
    in_flight: Vec<String>,
}

pub struct PoolLedgerView {
    pub submitted: u64,
    pub completed: u64,
    pub in_flight: Seq<Seq<char>>,
}

impl View for PoolLedger {
    type V = PoolLedgerView;

    closed spec fn view(&self) -> PoolLedgerView {
        PoolLedgerView {
            submitted: self.submitted,
            completed: self.completed,
            in_flight: self.in_flight@.map_values(|s: String| s@),
        }
    }
}

fn first_match(names: &Vec<String>, name: &str) -> (pos: usize)
    requires
        names@.map_values(|s: String| s@).contains(name@),
    ensures
        first_position(names@.map_values(|s: String| s@), name@) == Some(pos as int),
        pos < names@.len(),
{
    let ghost seen = names@.map_values(|s: String| s@);
    let target = String::from_str(name);
    let mut i: usize = 0;
    while i < names.len()
        invariant
            i <= names@.len(),
            seen == names@.map_values(|s: String| s@),
            seen.contains(name@),
            target@ == name@,
            forall|j: int| 0 <= j < i ==> seen[j] != name@,
        decreases names@.len() - i,
    {
        if names[i] == target {
            proof {
                lemma_first_position_found(seen, name@, i as int);
            }
            return i;
        }
        i = i + 1;
    }
    proof {
        let k = choose|k: int| 0 <= k < seen.len() && seen[k] == name@;
        assert(seen[k] != name@);
    }
    0
}

impl PoolLedger {
    /// Every task in flight was submitted and has not completed: the in-flight count is
    /// the number submitted less the number completed, in the `u64` arithmetic of the
    /// counters.
    #[verifier::type_invariant]
    spec fn balanced(self) -> bool {
        self.in_flight@.len() == self.submitted.wrapping_sub(self.completed)
    }

    /// A ledger with nothing submitted.
    pub fn new() -> (ledger: PoolLedger)
        ensures
            ledger@.submitted == 0,
            ledger@.completed == 0,
            ledger@.in_flight == Seq::<Seq<char>>::empty(),
    {
        let ledger = PoolLedger { submitted: 0, completed: 0, in_flight: Vec::new() };
        assert(ledger@.in_flight =~= Seq::<Seq<char>>::empty());
        ledger
    }

    /// Records a task handed to the pool under `name`.
    pub fn record_submitted(&mut self, name: &str)
        ensures
            final(self)@.submitted == old(self)@.submitted.wrapping_add(1),
            final(self)@.completed == old(self)@.completed,
            final(self)@.in_flight == old(self)@.in_flight.push(name@),
    {
        proof {
            use_type_invariant(&*self);
        }
        let mut ledger = PoolLedger::new();
        std::mem::swap(&mut ledger, self);
        proof {
            use_type_invariant(&ledger);
        }
        let PoolLedger { submitted, completed, mut in_flight } = ledger;
        let ghost names = in_flight@;
        in_flight.push(String::from_str(name));
        assert(in_flight.len() == in_flight@.len());
        assert(in_flight@.map_values(|s: String| s@) =~= names.map_values(|s: String| s@).push(name@));
        *self = PoolLedger { submitted: submitted.wrapping_add(1), completed, in_flight };
    }

    /// Records that a task named `name`, which is in flight, has finished.
    #[verifier::rlimit(30)]
    pub fn record_completed(&mut self, name: &str)
        requires
            old(self)@.in_flight.contains(name@),
        ensures
            final(self)@.submitted == old(self)@.submitted,
            final(self)@.completed == old(self)@.completed.wrapping_add(1),
            final(self)@.in_flight == spec_finish(old(self)@.in_flight, name@),
    {
        proof {
            use_type_invariant(&*self);
        }
        let mut ledger = PoolLedger::new();
        std::mem::swap(&mut ledger, self);
        proof {
            use_type_invariant(&ledger);
        }
        let PoolLedger { submitted, completed, mut in_flight } = ledger;
        let ghost names = in_flight@.map_values(|s: String| s@);
        let pos = first_match(&in_flight, name);
        in_flight.swap_remove(pos);
        assert(in_flight@.map_values(|s: String| s@) =~= names.update(pos as int, names.last()).drop_last());
        *self = PoolLedger { submitted, completed: completed.wrapping_add(1), in_flight };
    }

    /// Whether a task named `name` is in flight.
    pub fn is_in_flight(&self, name: &str) -> (found: bool)
        ensures
            found == self@.in_flight.contains(name@),
    {
        let ghost seen = self.in_flight@.map_values(|s: String| s@);
        let target = String::from_str(name);
        let mut i: usize = 0;
        while i < self.in_flight.len()
            invariant
                i <= self.in_flight@.len(),
                seen == self.in_flight@.map_values(|s: String| s@),
                target@ == name@,
                forall|j: int| 0 <= j < i ==> seen[j] != name@,
            decreases self.in_flight@.len() - i,
        {
            if self.in_flight[i] == target {
                assert(seen[i as int] == name@);
                return true;
            }
            i = i + 1;
        }
        false
    }

    /// The pool's counters, for a pool of `num_threads` workers.
    pub fn stats(&self, num_threads: usize) -> (stats: ComputePoolStats)
        ensures
            stats.submitted == self@.submitted,
            stats.completed == self@.completed,
            stats.num_threads == num_threads as u64,
            stats.in_flight_count == self@.in_flight.len(),
            stats.in_flight_count == stats.submitted.wrapping_sub(stats.completed),
    {
        proof {
            use_type_invariant(self);
        }
        ComputePoolStats {
            submitted: self.submitted,
            completed: self.completed,
            num_threads: num_threads as u64,
            in_flight_count: self.in_flight.len() as u64,
        }
    }
}

proof fn lemma_first_position_found(names: Seq<Seq<char>>, name: Seq<char>, k: int)
    requires
        0 <= k < names.len(),
        names[k] == name,
    ensures
        first_position(names, name) matches Some(i) && 0 <= i <= k && names[i] == name,
    decreases k,
{
    if exists|j: int| 0 <= j < k && names[j] == name {
        let j = choose|j: int| 0 <= j < k && names[j] == name;
        lemma_first_position_found(names, name, j);
    } else {
        assert(0 <= k < names.len() && names[k] == name && forall|j: int|
            0 <= j < k ==> names[j] != name);
    }
}

/// A task that is handed to the pool and then finishes leaves the in-flight list exactly
/// as it was before the task was handed over, whatever else is in flight under the same name.
pub proof fn lemma_finish_undoes_submit(names: Seq<Seq<char>>, name: Seq<char>)
    ensures
        spec_finish(names.push(name), name) == names,
{
    let s = names.push(name);
    assert(s[names.len() as int] == name);
    lemma_first_position_found(s, name, names.len() as int);
    let i = first_position(s, name)->0;
    assert(s[i] == name);
    assert(s.last() == name);
    assert(s.update(i, s.last()) =~= s);
    assert(s.drop_last() =~= names);
}

} // verus!
