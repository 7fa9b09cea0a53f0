use vstd::prelude::*;
use crate::errors::{validation_message, ValidationError};

verus! {

/// The step at which one scan failed.
#[derive(Clone, Debug, PartialEq, Eq)]
pub enum ScanFailure {
    /// Its path has no file name.
    NoFileName,
    /// It could not be opened or decoded.
    Open,
    /// The margin leaves nothing of it.
    Crop(ValidationError),
    /// Its left page could not be written.
    SaveLeft,
    /// Its right page could not be written.
    SaveRight,
}

/// The failure of one scan, with the scan's path, its file name (empty
/// where it has none) and the underlying cause.
#[derive(Clone, Debug, PartialEq, Eq)]
pub struct ScanError {
    pub path: String,
    pub file_name: String,
    pub failure: ScanFailure,
    pub cause: String,
}

/// What went wrong at the failed step, about the scan at `path` named
/// `file_name`.
pub open spec fn failure_message(f: ScanFailure, path: Seq<char>, file_name: Seq<char>) -> Seq<char> {
    match f {
        ScanFailure::NoFileName => "Invalid filename `"@ + path + "`"@,
        ScanFailure::Open => "Cannot open image `"@ + path + "`"@,
        ScanFailure::Crop(v) => validation_message(v),
        ScanFailure::SaveLeft => "Cannot save left part of `"@ + file_name + "`"@,
        ScanFailure::SaveRight => "Cannot save right part of `"@ + file_name + "`"@,
    }
}

/// The causal chain of a scan's failure, outermost first: the scan, the
/// failed step, then the underlying cause where there is one.
pub open spec fn error_chain_of(e: ScanError) -> Seq<Seq<char>> {
    let head = seq!["Could not process picture `"@ + e.path@ + "`"@, failure_message(e.failure, e.path@, e.file_name@)];
    if e.cause@.len() == 0 {
        head
    } else {
        head.push(e.cause@)
    }
}

impl ScanError {
    /// The lines that report this failure, outermost cause first.
    pub fn chain(&self) -> (r: Vec<String>)
        ensures
            r@.map_values(|s: String| s@) == error_chain_of(*self),
    {
        let path = self.path.as_str();
        let mut first = String::new();
        first.append("Could not process picture `");
        first.append(path);
        first.append("`");
        let mut second = String::new();
        match &self.failure {
            ScanFailure::NoFileName => {
                second.append("Invalid filename `");
                second.append(path);
                second.append("`");
            },
            ScanFailure::Open => {
                second.append("Cannot open image `");
                second.append(path);
                second.append("`");
            },
            ScanFailure::Crop(v) => {
                second = v.message();
            },
            ScanFailure::SaveLeft => {
                second.append("Cannot save left part of `");
                second.append(self.file_name.as_str());
                second.append("`");
            },
            ScanFailure::SaveRight => {
                second.append("Cannot save right part of `");
                second.append(self.file_name.as_str());
                second.append("`");
            },
        }
        let mut lines: Vec<String> = Vec::new();
        lines.push(first);
        lines.push(second);
        let cause = self.cause.as_str();
        if cause.unicode_len() > 0 {
            lines.push(String::from_str(cause));
        }
        assert(lines@.map_values(|s: String| s@) =~= error_chain_of(*self));
        lines
    }
}

/// The errors among `outcomes`, in order.
pub open spec fn failures(outcomes: Seq<Result<(), ScanError>>) -> Seq<ScanError>
    decreases outcomes.len(),
{
    if outcomes.len() == 0 {
        Seq::empty()
    } else {
        let rest = failures(outcomes.drop_last());
        match outcomes.last() {
            Ok(()) => rest,
            Err(e) => rest.push(e),
        }
    }
}

/// Appends to `errs` the failures among the outcomes of one chunk's scans,
/// in scan order; scans that succeeded add nothing.
pub fn collect_failures(errs: &mut Vec<ScanError>, outcomes: Vec<Result<(), ScanError>>)
    ensures
        final(errs)@ == old(errs)@ + failures(outcomes@),
{
    let ghost all = outcomes@;
    let ghost start = errs@;
    let n = outcomes.len();
    let mut rest = outcomes;
    let mut k: usize = 0;
    while rest.len() > 0
        invariant
            all.len() == n,
            k + rest@.len() == n,
            rest@ == all.subrange(k as int, all.len() as int),
            errs@ == start + failures(all.take(k as int)),
        decreases rest@.len(),
    {
        let outcome = rest.remove(0);
        proof {
            assert(all.take(k as int + 1).drop_last() =~= all.take(k as int));
        }
        match outcome {
            Ok(()) => {},
            Err(e) => {
                errs.push(e);
            },
        }
        k = k + 1;
        assert(errs@ =~= start + failures(all.take(k as int)));
    }
    assert(all.take(k as int) =~= all);
}

/// Failures are reported per scan: the scan at position `k` adds exactly its
/// own error to the report if it failed and nothing if it succeeded, and what
/// scans `0..k` reported stays at the head of the full report.
pub proof fn lemma_failure_reported_once(outcomes: Seq<Result<(), ScanError>>, k: int)
    requires
        0 <= k < outcomes.len(),
    ensures
        outcomes[k] matches Err(e) ==> failures(outcomes.take(k + 1)) == failures(
            outcomes.take(k),
        ).push(e),
        outcomes[k] is Ok ==> failures(outcomes.take(k + 1)) == failures(outcomes.take(k)),
        failures(outcomes).take(failures(outcomes.take(k + 1)).len() as int) == failures(
            outcomes.take(k + 1),
        ),
    decreases outcomes.len(),
{
    assert(outcomes.take(k + 1).drop_last() =~= outcomes.take(k));
    lemma_failures_prefix(outcomes, k + 1);
}

proof fn lemma_failures_prefix(outcomes: Seq<Result<(), ScanError>>, n: int)
    requires
        0 <= n <= outcomes.len(),
    ensures
        failures(outcomes.take(n)).len() <= failures(outcomes).len(),
        failures(outcomes).take(failures(outcomes.take(n)).len() as int) == failures(
            outcomes.take(n),
        ),
    decreases outcomes.len(),
{
    if n == outcomes.len() {
        assert(outcomes.take(n) =~= outcomes);
        assert(failures(outcomes).take(failures(outcomes).len() as int) =~= failures(outcomes));
    } else {
        let init = outcomes.drop_last();
        assert(init.take(n) =~= outcomes.take(n));
        lemma_failures_prefix(init, n);
        let f = failures(init);
        let p = failures(outcomes.take(n));
        assert(failures(outcomes).take(p.len() as int) =~= f.take(p.len() as int));
    }
}

} // verus!
