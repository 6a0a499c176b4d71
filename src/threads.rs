use vstd::prelude::*;
use crate::storage::StorageType;

verus! {

/// The worker count that the policy table gives for `cpus` logical processors,
/// before clamping.
pub open spec fn policy_threads(source: StorageType, dest: StorageType, cpus: nat) -> nat {
    match (source, dest) {
        (StorageType::SSD, StorageType::SSD) => 2 * cpus,
        (StorageType::SSD, _) | (_, StorageType::SSD) => cpus,
        (StorageType::HDD, StorageType::HDD) => cpus / 2,
        _ => cpus,
    }
}

/// The planned worker count: a positive override verbatim, else the policy
/// table (capped at `usize::MAX`), clamped to at least one.
pub open spec fn planned_threads(
    source: StorageType,
    dest: StorageType,
    user_threads: Option<usize>,
    cpus: nat,
) -> nat {
    match user_threads {
        Some(n) if n > 0 => n as nat,
        _ => {
            let t = policy_threads(source, dest, cpus);
            if t == 0 {
                1
            } else if t > usize::MAX {
                usize::MAX as nat
            } else {
                t
            }
        },
    }
}

/// Plans the worker count from the two storage classes, an optional user
/// override and the number of logical processors. An override of zero means
/// "automatic" and defers to the policy table.
pub fn plan_threads(
    source_type: &StorageType,
    dest_type: &StorageType,
    user_threads: Option<usize>,
    cpus: usize,
) -> (r: usize)
    ensures
        r as nat == planned_threads(*source_type, *dest_type, user_threads, cpus as nat),
        r >= 1,
{
    if let Some(n) = user_threads {
        if n > 0 {
            return n;
        }
    }
    let t: usize = match (source_type, dest_type) {
        (StorageType::SSD, StorageType::SSD) => {
            if cpus > usize::MAX / 2 {
                usize::MAX
            } else {
                cpus * 2
            }
        },
        (StorageType::SSD, _) | (_, StorageType::SSD) => cpus,
        (StorageType::HDD, StorageType::HDD) => cpus / 2,
        _ => cpus,
    };
    if t == 0 {
        1
    } else {
        t
    }
}

/// Relies on `num_cpus::get`: the number of logical processors available to
/// this process, which its documentation promises is at least one.
#[verifier::external_body]
fn logical_cpus() -> (r: usize)
    ensures
        r >= 1,
{
    num_cpus::get()
}

/// Plans the worker count with the number of logical processors of this
/// machine.
pub fn determine_optimal_threads(
    source_type: &StorageType,
    dest_type: &StorageType,
    user_threads: Option<usize>,
) -> (r: usize)
    ensures
        r >= 1,
        user_threads is Some && user_threads->Some_0 > 0 ==> r == user_threads->Some_0,
        exists|cpus: usize| cpus >= 1 && r as nat == planned_threads(*source_type, *dest_type, user_threads, cpus as nat),
{
    let cpus = logical_cpus();
    plan_threads(source_type, dest_type, user_threads, cpus)
}

} // verus!
