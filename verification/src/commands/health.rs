//! The health check of a container: whether a root process is still attached.
use vstd::prelude::*;

verus! {

/// How old (in seconds) the file of a process has to be for the process to
/// be considered dead.
pub const OLD_THRESHOLD: u64 = 30;

/// The outcome of a health check over the files of the processes, in the
/// order they are read: how many of the first files belong to dead processes
/// (they are removed), and whether a live process follows them.
pub open spec fn health_outcome(ages: Seq<u64>) -> (nat, bool)
    decreases ages.len(),
{
    if ages.len() == 0 {
        (0, false)
    } else if ages[0] > OLD_THRESHOLD {
        let rest = health_outcome(ages.drop_first());
        ((rest.0 + 1) as nat, rest.1)
    } else {
        (0, true)
    }
}

/// Checks the ages (in seconds since last modified) of the files of the
/// processes: the files of dead processes before the first live one are
/// removed, and the check succeeds when a live one is found (see
/// `health_outcome`).
pub fn container_healthcheck(ages: &Vec<u64>) -> (r: (usize, bool))
    ensures
        (r.0 as nat, r.1) == health_outcome(ages@),
{
    let mut k: usize = 0;
    assert(ages@.subrange(0, ages@.len() as int) =~= ages@);
    while k < ages.len()
        invariant
            k <= ages.len(),
            forall|j: int| 0 <= j < k ==> ages@[j] > OLD_THRESHOLD,
            health_outcome(ages@) == ((health_outcome(ages@.subrange(k as int, ages@.len() as int)).0 + k) as nat,
                health_outcome(ages@.subrange(k as int, ages@.len() as int)).1),
        decreases ages.len() - k,
    {
        let ghost rest = ages@.subrange(k as int, ages@.len() as int);
        if ages[k] <= OLD_THRESHOLD {
            // found a live process
            return (k, true);
        }
        assert(rest.drop_first() =~= ages@.subrange(k + 1, ages@.len() as int));
        k = k + 1;
    }
    assert(ages@.subrange(k as int, ages@.len() as int) =~= Seq::<u64>::empty());
    (k, false)
}

} // verus!
