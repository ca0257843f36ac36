use vstd::prelude::*;
use vstd::std_specs::cmp::PartialEqSpec;

use crate::clock::{nanos_since, now};
use crate::metrics::Metrics;

verus! {

/// An invariant of the protocol that a job run broke.
#[derive(Clone, Copy, Debug, PartialEq, Eq, Structural)]
pub enum Violation {
    /// The host produced a reference that differs from the proved output.
    OutputMismatch,
    /// The genuine proof of the proved output was rejected.
    GenuineProofRejected,
    /// A corrupted proof was accepted against the proved output.
    TamperedProofAccepted,
}

/// A run that stopped on a violated invariant, with what it measured up to then.
pub struct Halt {
    pub violation: Violation,
    pub metrics: Metrics,
}

/// The record of a run, whether it completed or halted.
pub open spec fn record_of(r: Result<Metrics, Halt>) -> Metrics {
    match r {
        Ok(m) => m,
        Err(h) => h.metrics,
    }
}

/// Whether the proved output agrees with the host's reference, where there is one.
pub open spec fn agrees<O: PartialEq>(host: Option<O>, guest: O) -> bool {
    match host {
        Some(h) => h.eq_spec(&guest),
        None => true,
    }
}

/// The protocol's decision on what its phases reported, checked in order:
/// equivalence, then the genuine proof, then the corrupted one (if any).
pub open spec fn verdict<O: PartialEq>(
    host: Option<O>,
    guest: O,
    genuine_accepted: bool,
    tampered_accepted: Option<bool>,
) -> Result<(), Violation> {
    if !agrees(host, guest) {
        Err(Violation::OutputMismatch)
    } else if !genuine_accepted {
        Err(Violation::GenuineProofRejected)
    } else if tampered_accepted == Some(true) {
        Err(Violation::TamperedProofAccepted)
    } else {
        Ok(())
    }
}

/// What the verifier of `job` says of the corrupted proof that `job` makes
/// of `proof`, or `None` where `job` cannot corrupt it.
pub open spec fn falsification<B: Benchmark>(
    job: B,
    output: B::ComputeOut,
    proof: B::ProofType,
) -> Option<bool> {
    match job.corruption(proof) {
        Some(q) => Some(job.accepts(output, q)),
        None => None,
    }
}

/// `r` is what a run returns when the host reported `host`, the engine
/// proved `output` with `proof`, and `job` (as the engine left it) judged
/// the genuine proof and corrupted it.
/// Each phase that ran wrote its measurement; the others left theirs at zero.
pub open spec fn explains<B: Benchmark>(
    r: Result<Metrics, Halt>,
    job: B,
    host: Option<B::ComputeOut>,
    output: B::ComputeOut,
    proof: B::ProofType,
) -> bool {
    let v = verdict(host, output, job.accepts(output, proof), falsification(job, output, proof));
    let m = record_of(r);
    &&& match r {
        Ok(_) => v is Ok,
        Err(h) => v == Err::<(), Violation>(h.violation),
    }
    &&& if v == Err::<(), Violation>(Violation::OutputMismatch) {
        &&& m.output_bytes == 0
        &&& m.proof_bytes == 0
        &&& m.verify_duration == 0
        &&& m.falsify_duration is None
    } else {
        &&& m.output_bytes == B::output_size(output, proof)
        &&& m.proof_bytes == B::proof_size(proof)
        &&& (m.falsify_duration is Some <==> (v != Err::<(), Violation>(
            Violation::GenuineProofRejected,
        ) && job.corruption(proof) is Some))
    }
}

/// The output that the engine last produced for `job`.
pub open spec fn proved_output<B: Benchmark>(job: B) -> B::ComputeOut {
    (job.proved()->0).0
}

/// The proof that the engine last produced for `job`.
pub open spec fn proved_proof<B: Benchmark>(job: B) -> B::ProofType {
    (job.proved()->0).1
}

/// `r` is what a run of a job created from `spec` returns, `job` being that
/// job as the engine left it: the host reported the workload's reference for
/// `spec`, the engine proved the output and proof that `job` holds, and the
/// record carries the family name and the size of `spec`.
pub open spec fn ran<B: Benchmark>(r: Result<Metrics, Halt>, job: B, spec: B::Spec) -> bool {
    &&& job.spec_of() == spec
    &&& job.proved() is Some
    &&& record_of(r).job_name@ == B::family()
    &&& record_of(r).job_size == B::size_of(spec)
    &&& explains::<B>(r, job, B::reference(spec), proved_output(job), proved_proof(job))
}

/// `m` is the record of a run, of a job built from `spec`, that completed
/// with every invariant holding.
#[verifier::opaque]
pub open spec fn passed<B: Benchmark>(m: Metrics, spec: B::Spec) -> bool {
    &&& B::buildable(spec)
    &&& exists|job: B| #[trigger] ran::<B>(Ok(m), job, spec)
}

/// A workload that the harness can run: computed on the host, computed and
/// proved on a guest engine, verified, and optionally falsified.
///
/// The spec functions describe the workload to the verifier. Their default
/// bodies leave them unspecified; a workload that is itself verified
/// defines each, and its methods are then held to the contracts below.
pub trait Benchmark: Sized {
    type Spec;
    type ComputeOut: PartialEq;
    type ProofType;

    /// The family name shared by every job of this workload.
    open spec fn family() -> Seq<char> {
        vstd::pervasive::arbitrary()
    }

    /// The comparability axis of a spec (bytes, iterations, ...).
    open spec fn size_of(spec: Self::Spec) -> u32 {
        vstd::pervasive::arbitrary()
    }

    /// The serialized size of an output, given with its proof.
    open spec fn output_size(output: Self::ComputeOut, proof: Self::ProofType) -> u32 {
        vstd::pervasive::arbitrary()
    }

    /// The serialized size of a proof.
    open spec fn proof_size(proof: Self::ProofType) -> u32 {
        vstd::pervasive::arbitrary()
    }

    /// Whether a job can be built from `spec`.
    open spec fn buildable(spec: Self::Spec) -> bool {
        vstd::pervasive::arbitrary()
    }

    /// The host's reference result for `spec`, or `None` where the workload
    /// has no host equivalent.
    open spec fn reference(spec: Self::Spec) -> Option<Self::ComputeOut> {
        vstd::pervasive::arbitrary()
    }

    /// The output and proof that the engine last produced for this job, if any.
    open spec fn proved(&self) -> Option<(Self::ComputeOut, Self::ProofType)> {
        vstd::pervasive::arbitrary()
    }

    /// The spec this job was created from.
    open spec fn spec_of(&self) -> Self::Spec {
        vstd::pervasive::arbitrary()
    }

    /// The corrupted proof that this job makes of `proof`, if it can make one.
    open spec fn corruption(&self, proof: Self::ProofType) -> Option<Self::ProofType> {
        vstd::pervasive::arbitrary()
    }

    /// Whether the engine's verifier, as set up in this job, accepts the pair.
    open spec fn accepts(&self, output: Self::ComputeOut, proof: Self::ProofType) -> bool {
        vstd::pervasive::arbitrary()
    }

    /// The family name, as the records carry it.
    fn name() -> (r: &'static str)
        ensures
            r@ == Self::family(),
    ;

    /// The size of a spec; a function of the spec alone.
    fn job_size(spec: &Self::Spec) -> (r: u32)
        ensures
            r == Self::size_of(*spec),
    ;

    /// The serialized size of an output; a function of its arguments alone.
    fn output_size_bytes(output: &Self::ComputeOut, proof: &Self::ProofType) -> (r: u32)
        ensures
            r == Self::output_size(*output, *proof),
    ;

    /// The serialized size of a proof; a function of the proof alone.
    fn proof_size_bytes(proof: &Self::ProofType) -> (r: u32)
        ensures
            r == Self::proof_size(*proof),
    ;

    /// Builds the job's own state (program, inputs, proof options) from a
    /// spec, or says why it cannot: a setup error, not a benchmark result.
    fn new(spec: Self::Spec) -> (r: Result<Self, String>)
        ensures
            r is Ok <==> Self::buildable(spec),
            r matches Ok(job) ==> job.spec_of() == spec,
    ;

    /// The spec the job was created from; it never changes.
    fn spec(&self) -> (r: &Self::Spec)
        ensures
            *r == self.spec_of(),
    ;

    /// The reference result, or `None` where the workload has no host equivalent.
    fn host_compute(&mut self) -> (r: Option<Self::ComputeOut>)
        ensures
            r == Self::reference(old(self).spec_of()),
            final(self).spec_of() == old(self).spec_of(),
    ;

    /// Runs the workload on the engine: the claimed output and its proof.
    fn guest_compute(&mut self) -> (r: (Self::ComputeOut, Self::ProofType))
        ensures
            final(self).proved() == Some(r),
            final(self).spec_of() == old(self).spec_of(),
    ;

    /// The engine's verdict on a pair: `false`, not a failure, for a bad proof.
    fn verify_proof(&self, output: &Self::ComputeOut, proof: &Self::ProofType) -> (r: bool)
        ensures
            r == self.accepts(*output, *proof),
    ;

    /// A proof that must not verify against the output it was made for, or
    /// `None` where the workload cannot corrupt its proofs.
    fn corrupt_proof(&self, proof: &Self::ProofType) -> (r: Option<Self::ProofType>)
        ensures
            r == self.corruption(*proof),
    ;
}

/// The falsification check: corrupts `proof` and asks the verifier about the
/// corrupted proof against `output`. `None` where `job` cannot corrupt proofs.
pub fn falsify<B: Benchmark>(job: &B, output: &B::ComputeOut, proof: &B::ProofType) -> (r: Option<
    bool,
>)
    ensures
        r == falsification(*job, *output, *proof),
{
    match job.corrupt_proof(proof) {
        Some(bad) => Some(job.verify_proof(output, &bad)),
        None => None,
    }
}

/// Runs the protocol once: host compute, guest compute and the
/// equivalence check, size accounting, verification of the genuine proof,
/// and, where the job can corrupt its proof, falsification. Stops at the
/// first violated invariant.
///
/// Outputs are compared with their `==`, which must decide the equality that
/// its spec states (as it does for integers, vectors of them, and derived
/// structural equality).
pub fn run<B: Benchmark>(job: &mut B) -> (r: Result<Metrics, Halt>)
    requires
        B::ComputeOut::obeys_eq_spec(),
    ensures
        ran::<B>(r, *final(job), old(job).spec_of()),
{
    let mut metrics = Metrics::new(String::from_str(B::name()), B::job_size(job.spec()));

    let start = now();
    let host = job.host_compute();
    metrics.host_duration = nanos_since(&start);

    let start = now();
    let (output, proof) = job.guest_compute();
    metrics.proof_duration = nanos_since(&start);

    let same = match &host {
        Some(h) => h.eq(&output),
        None => true,
    };
    let r = if !same {
        Err(Halt { violation: Violation::OutputMismatch, metrics })
    } else {
        metrics.output_bytes = B::output_size_bytes(&output, &proof);
        metrics.proof_bytes = B::proof_size_bytes(&proof);

        let start = now();
        let accepted = job.verify_proof(&output, &proof);
        metrics.verify_duration = nanos_since(&start);

        if !accepted {
            Err(Halt { violation: Violation::GenuineProofRejected, metrics })
        } else {
            let start = now();
            let fooled = falsify(job, &output, &proof);
            match fooled {
                Some(fooled) => {
                    metrics.falsify_duration = Some(nanos_since(&start));
                    if fooled {
                        Err(Halt { violation: Violation::TamperedProofAccepted, metrics })
                    } else {
                        Ok(metrics)
                    }
                },
                None => Ok(metrics),
            }
        }
    };
    r
}

} // verus!
