use vstd::prelude::*;

use crate::decimal::{decimal, decimal_string};

verus! {

/// A duration in nanoseconds, as a report shows it.
pub open spec fn nanos_text(n: u128) -> Seq<char> {
    decimal(n as nat) + "ns"@
}

/// An optional duration, as a report shows it.
pub open spec fn optional_nanos_text(n: Option<u128>) -> Seq<char> {
    match n {
        Some(n) => nanos_text(n),
        None => "unsupported"@,
    }
}

fn field_line(prefix: &str, label: &str, value: &str) -> (r: String)
    ensures
        r@ == prefix@ + label@ + value@,
{
    let mut s = String::from_str(prefix);
    s.append(label);
    s.append(value);
    s
}

fn nanos_string(n: u128) -> (r: String)
    ensures
        r@ == nanos_text(n),
{
    let mut s = decimal_string(n);
    s.append("ns");
    s
}

/// Per-job measurements: the job's family name and size, the elapsed time
/// of each phase in nanoseconds, and the sizes of the output and the proof.
pub struct Metrics {
    pub job_name: String,
    pub job_size: u32,
    pub host_duration: u128,
    pub proof_duration: u128,
    pub verify_duration: u128,
    /// Present only when the job could corrupt its proof and the check ran.
    pub falsify_duration: Option<u128>,
    pub output_bytes: u32,
    pub proof_bytes: u32,
}

impl Metrics {
    /// A record of `job_name` and `job_size` with every measurement still zero.
    pub open spec fn is_fresh(&self) -> bool {
        &&& self.host_duration == 0
        &&& self.proof_duration == 0
        &&& self.verify_duration == 0
        &&& self.falsify_duration is None
        &&& self.output_bytes == 0
        &&& self.proof_bytes == 0
    }

    pub fn new(job_name: String, job_size: u32) -> (r: Self)
        ensures
            r.job_name@ == job_name@,
            r.job_size == job_size,
            r.is_fresh(),
    {
        Metrics {
            job_name,
            job_size,
            host_duration: 0,
            proof_duration: 0,
            verify_duration: 0,
            falsify_duration: None,
            output_bytes: 0,
            proof_bytes: 0,
        }
    }

    /// The report of this record: one line per field, each led by `prefix`.
    pub open spec fn report(&self, prefix: Seq<char>) -> Seq<Seq<char>> {
        seq![
            prefix + "job_name:           "@ + self.job_name@,
            prefix + "job_size:           "@ + decimal(self.job_size as nat),
            prefix + "host_duration:      "@ + nanos_text(self.host_duration),
            prefix + "proof_duration:     "@ + nanos_text(self.proof_duration),
            prefix + "verify_duration:    "@ + nanos_text(self.verify_duration),
            prefix + "falsify_duration:   "@ + optional_nanos_text(self.falsify_duration),
            prefix + "output_bytes:       "@ + decimal(self.output_bytes as nat),
            prefix + "proof_bytes:        "@ + decimal(self.proof_bytes as nat),
        ]
    }

    /// The lines of this record's report, for the caller to print.
    pub fn println(&self, prefix: &str) -> (r: Vec<String>)
        ensures
            r@.len() == self.report(prefix@).len(),
            forall|i: int| 0 <= i < r@.len() ==> #[trigger] r@[i]@ == self.report(prefix@)[i],
    {
        let mut lines: Vec<String> = Vec::new();
        lines.push(field_line(prefix, "job_name:           ", self.job_name.as_str()));
        lines.push(
            field_line(prefix, "job_size:           ", decimal_string(self.job_size as u128).as_str()),
        );
        lines.push(
            field_line(prefix, "host_duration:      ", nanos_string(self.host_duration).as_str()),
        );
        lines.push(
            field_line(prefix, "proof_duration:     ", nanos_string(self.proof_duration).as_str()),
        );
        lines.push(
            field_line(prefix, "verify_duration:    ", nanos_string(self.verify_duration).as_str()),
        );
        let falsify = match self.falsify_duration {
            Some(n) => nanos_string(n),
            None => String::from_str("unsupported"),
        };
        lines.push(field_line(prefix, "falsify_duration:   ", falsify.as_str()));
        lines.push(
            field_line(prefix, "output_bytes:       ", decimal_string(self.output_bytes as u128).as_str()),
        );
        lines.push(
            field_line(prefix, "proof_bytes:        ", decimal_string(self.proof_bytes as u128).as_str()),
        );
        assert(lines@.len() == 8);
        lines
    }
}

} // verus!
