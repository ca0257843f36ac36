use vstd::prelude::*;
use vstd::std_specs::cmp::PartialEqSpec;

use crate::benchmark::{
    agrees, falsification, falsify, proved_output, proved_proof, ran, Benchmark, Halt, Violation,
};
use crate::metrics::Metrics;

verus! {

/// A run either completes with every invariant holding, or halts naming the
/// first invariant that failed, every earlier one having held. The invariants
/// are judged on the host's reference and on the output and proof that the
/// engine produced. A mismatch halts before sizes or verification are
/// recorded.
pub proof fn lemma_run_completes_or_names_violation<B: Benchmark>(
    r: Result<Metrics, Halt>,
    job: B,
    spec: B::Spec,
)
    requires
        ran::<B>(r, job, spec),
    ensures
        r is Ok <==> {
            &&& agrees(B::reference(spec), proved_output(job))
            &&& job.accepts(proved_output(job), proved_proof(job))
            &&& falsification(job, proved_output(job), proved_proof(job)) != Some(true)
        },
        r matches Err(h) ==> match h.violation {
            Violation::OutputMismatch => {
                &&& !agrees(B::reference(spec), proved_output(job))
                &&& h.metrics.verify_duration == 0
                &&& h.metrics.output_bytes == 0
                &&& h.metrics.proof_bytes == 0
            },
            Violation::GenuineProofRejected => {
                &&& agrees(B::reference(spec), proved_output(job))
                &&& !job.accepts(proved_output(job), proved_proof(job))
                &&& h.metrics.falsify_duration is None
            },
            Violation::TamperedProofAccepted => {
                &&& agrees(B::reference(spec), proved_output(job))
                &&& job.accepts(proved_output(job), proved_proof(job))
                &&& falsification(job, proved_output(job), proved_proof(job)) == Some(true)
            },
        },
{
}

/// In a completed run, the host's reference, where there is one, equals the
/// output the engine produced.
pub proof fn lemma_completed_run_host_equals_guest<B: Benchmark>(
    m: Metrics,
    job: B,
    spec: B::Spec,
)
    requires
        ran::<B>(Ok(m), job, spec),
        B::reference(spec) is Some,
    ensures
        (B::reference(spec)->0).eq_spec(&proved_output(job)),
{
}

/// In a completed run, the verifier accepted the output and proof that the
/// engine produced, and the record holds their sizes.
pub proof fn lemma_completed_run_proof_verifies<B: Benchmark>(m: Metrics, job: B, spec: B::Spec)
    requires
        ran::<B>(Ok(m), job, spec),
    ensures
        job.accepts(proved_output(job), proved_proof(job)),
        m.output_bytes == B::output_size(proved_output(job), proved_proof(job)),
        m.proof_bytes == B::proof_size(proved_proof(job)),
{
}

/// In a completed run of a job that corrupts proofs, the verifier rejected
/// the corruption of the produced proof, and the check was timed. Running
/// the falsification check again on that proof gives the same verdict.
pub proof fn lemma_completed_run_rejects_corruption<B: Benchmark>(
    m: Metrics,
    job: B,
    spec: B::Spec,
    again: Option<bool>,
)
    requires
        ran::<B>(Ok(m), job, spec),
        job.corruption(proved_proof(job)) is Some,
        call_ensures(falsify::<B>, (&job, &proved_output(job), &proved_proof(job)), again),
    ensures
        !job.accepts(proved_output(job), job.corruption(proved_proof(job))->0),
        m.falsify_duration is Some,
        again == Some(false),
{
}

/// Where the verifier rejects the corruption of a genuine, accepted proof
/// that matches the host, the run completes, with a falsification time.
pub proof fn lemma_rejected_corruption_completes<B: Benchmark>(
    r: Result<Metrics, Halt>,
    job: B,
    spec: B::Spec,
)
    requires
        ran::<B>(r, job, spec),
        agrees(B::reference(spec), proved_output(job)),
        job.accepts(proved_output(job), proved_proof(job)),
        falsification(job, proved_output(job), proved_proof(job)) == Some(false),
    ensures
        r matches Ok(m) && m.falsify_duration is Some,
{
}

/// A job that cannot corrupt proofs is exempt from falsification, and its
/// record says so: no falsification time is recorded.
pub proof fn lemma_no_corruption_no_falsification<B: Benchmark>(
    r: Result<Metrics, Halt>,
    job: B,
    spec: B::Spec,
)
    requires
        ran::<B>(r, job, spec),
        job.corruption(proved_proof(job)) is None,
    ensures
        r matches Err(h) ==> h.violation != Violation::TamperedProofAccepted,
        match r {
            Ok(m) => m.falsify_duration is None,
            Err(h) => h.metrics.falsify_duration is None,
        },
{
}

/// Falsifying the same proof twice, against the same output and job, gives
/// the same verdict.
pub proof fn lemma_falsification_repeatable<B: Benchmark>(
    job: B,
    output: B::ComputeOut,
    proof: B::ProofType,
    first: Option<bool>,
    second: Option<bool>,
)
    requires
        call_ensures(falsify::<B>, (&job, &output, &proof), first),
        call_ensures(falsify::<B>, (&job, &output, &proof), second),
    ensures
        first == second,
        first == falsification(job, output, proof),
{
}

/// Measuring the same output and proof twice gives the same sizes.
pub proof fn lemma_sizes_repeatable<B: Benchmark>(
    output: B::ComputeOut,
    proof: B::ProofType,
    first_output: u32,
    second_output: u32,
    first_proof: u32,
    second_proof: u32,
)
    requires
        call_ensures(B::output_size_bytes, (&output, &proof), first_output),
        call_ensures(B::output_size_bytes, (&output, &proof), second_output),
        call_ensures(B::proof_size_bytes, (&proof,), first_proof),
        call_ensures(B::proof_size_bytes, (&proof,), second_proof),
    ensures
        first_output == second_output,
        first_proof == second_proof,
{
}

} // verus!
