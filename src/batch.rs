use vstd::prelude::*;
use vstd::std_specs::cmp::PartialEqSpec;

use crate::benchmark::{passed, ran, run, Benchmark, Halt};
use crate::metrics::Metrics;

verus! {

/// Why a batch stopped.
pub enum BatchFailure {
    /// The job could not be built from its spec; the run never started.
    Setup(String),
    /// The job's run broke an invariant.
    Halted(Halt),
}

/// A batch that stopped at one job.
pub struct BatchHalt {
    /// The records of the jobs that completed before it, in order; its
    /// length is the index of the job that stopped the batch.
    pub completed: Vec<Metrics>,
    pub failure: BatchFailure,
}

/// Each record is that of a completed run of the job created from the spec
/// at its index.
pub open spec fn records_match<B: Benchmark>(records: Seq<Metrics>, specs: Seq<B::Spec>) -> bool {
    &&& records.len() <= specs.len()
    &&& forall|i: int|
        0 <= i < records.len() ==> passed::<B>(#[trigger] records[i], specs[i])
}

/// How the job created from `spec` stopped a batch: it could not be built,
/// or its run returned the halt.
pub open spec fn stopped_by<B: Benchmark>(failure: BatchFailure, spec: B::Spec) -> bool {
    match failure {
        BatchFailure::Setup(_) => !B::buildable(spec),
        BatchFailure::Halted(h) => {
            &&& B::buildable(spec)
            &&& exists|job: B| #[trigger] ran::<B>(Err(h), job, spec)
        },
    }
}

/// Runs one job per spec, in order, each created from its spec and run
/// through the protocol. Stops at the first job that cannot be built or
/// whose run halts; no later job is created.
pub fn run_jobs<B: Benchmark>(specs: Vec<B::Spec>) -> (r: Result<Vec<Metrics>, BatchHalt>)
    requires
        B::ComputeOut::obeys_eq_spec(),
    ensures
        match r {
            Ok(all) => {
                &&& all@.len() == specs@.len()
                &&& records_match::<B>(all@, specs@)
            },
            Err(b) => {
                &&& b.completed@.len() < specs@.len()
                &&& records_match::<B>(b.completed@, specs@)
                &&& stopped_by::<B>(b.failure, specs@[b.completed@.len() as int])
            },
        },
{
    let ghost all_specs = specs@;
    let mut rest = specs;
    let mut all: Vec<Metrics> = Vec::new();
    while rest.len() > 0
        invariant
            B::ComputeOut::obeys_eq_spec(),
            all_specs == specs@,
            all@.len() + rest@.len() == all_specs.len(),
            rest@ == all_specs.subrange(all@.len() as int, all_specs.len() as int),
            records_match::<B>(all@, all_specs),
        decreases rest@.len(),
    {
        assert(rest@[0] == all_specs[all@.len() as int]);
        let spec = rest.remove(0);
        let ghost this_spec = spec;
        let built = B::new(spec);
        assert(built is Ok <==> B::buildable(this_spec));
        match built {
            Err(message) => {
                return Err(BatchHalt { completed: all, failure: BatchFailure::Setup(message) });
            },
            Ok(mut job) => {
                let r = run(&mut job);
                assert(ran::<B>(r, job, this_spec));
                match r {
                    Ok(m) => {
                        assert(ran::<B>(Ok(m), job, this_spec));
                        assert(passed::<B>(m, this_spec)) by {
                            reveal(passed);
                        }
                        let ghost before = all@;
                        assert(this_spec == all_specs[before.len() as int]);
                        all.push(m);
                        assert forall|i: int| 0 <= i < all@.len() implies passed::<B>(
                            #[trigger] all@[i],
                            all_specs[i],
                        ) by {
                            if i < before.len() {
                                assert(all@[i] == before[i]);
                            }
                        }

                    },
                    Err(h) => {
                        return Err(BatchHalt { completed: all, failure: BatchFailure::Halted(h) });
                    },
                }
            },
        }
    }
    Ok(all)
}

} // verus!
