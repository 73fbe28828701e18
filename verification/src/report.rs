//! The report of a scan: which of the delivered results it keeps.
//!
//! Whatever reaches the collector is held against the target before it is
//! kept. A result for another address or for a port outside the range is
//! dropped, and so is a second result for a port that is already reported.

use vstd::prelude::*;
use vstd::seq_lib::lemma_seq_contains_after_push;
use vstd::set_lib::{lemma_int_range, lemma_len_subset, set_int_range};
use crate::probe::ProbeResult;
use crate::target::{Target, TargetView};

verus! {

/// `result` is one that a scan of `target` can produce: it names the target's
/// address and a port of its range.
pub open spec fn admits(target: TargetView, result: ProbeResult) -> bool {
    result.address == target.address && target.contains(result.port as int)
}

/// What a report of `target` keeps of `delivered`: the results that the target
/// admits, each where it first occurs, in the order of delivery.
pub open spec fn admitted(target: TargetView, delivered: Seq<ProbeResult>) -> Seq<ProbeResult>
    decreases delivered.len(),
{
    if delivered.len() == 0 {
        Seq::empty()
    } else {
        let earlier = admitted(target, delivered.drop_last());
        let last = delivered.last();
        if admits(target, last) && !earlier.contains(last) {
            earlier.push(last)
        } else {
            earlier
        }
    }
}

/// `results` could be the report of a scan of `target`: the target admits each
/// of them and none occurs twice.
pub open spec fn consistent(target: TargetView, results: Seq<ProbeResult>) -> bool {
    &&& forall|i: int| 0 <= i < results.len() ==> admits(target, #[trigger] results[i])
    &&& results.no_duplicates()
}

/// What is kept of a sequence is consistent with the target, holds exactly the
/// admitted results that were delivered, and is no longer than the sequence.
pub proof fn lemma_admitted(target: TargetView, delivered: Seq<ProbeResult>)
    ensures
        consistent(target, admitted(target, delivered)),
        forall|r: ProbeResult| #[trigger]
            admitted(target, delivered).contains(r) <==> delivered.contains(r) && admits(target, r),
        admitted(target, delivered).len() <= delivered.len(),
    decreases delivered.len(),
{
    let kept = admitted(target, delivered);
    if delivered.len() > 0 {
        let front = delivered.drop_last();
        let last = delivered.last();
        let earlier = admitted(target, front);
        lemma_admitted(target, front);
        assert(front.push(last) =~= delivered);
        assert forall|r: ProbeResult| #[trigger] kept.contains(r) <==> delivered.contains(r)
            && admits(target, r) by {
            lemma_seq_contains_after_push(earlier, last, r);
            lemma_seq_contains_after_push(front, last, r);
        }
    }
}

/// A report never holds more results than the target has ports.
pub proof fn lemma_consistent_len(target: TargetView, results: Seq<ProbeResult>)
    requires
        target.wf(),
        consistent(target, results),
    ensures
        results.len() <= target.count(),
{
    // The results differ in their ports, as all of them share the address.
    let ports = Seq::new(results.len(), |i: int| results[i].port as int);
    assert(ports.no_duplicates());
    ports.unique_seq_to_set();
    let range = set_int_range(target.start, target.end + 1);
    lemma_int_range(target.start, target.end + 1);
    assert(ports.to_set().subset_of(range));
    lemma_len_subset(ports.to_set(), range);
}

/// The open ports that a finished scan found, in the order in which their
/// results were delivered.
#[derive(Debug)]
pub struct ScanReport {
    target: Target,
    results: Vec<ProbeResult>,
}

impl View for ScanReport {
    type V = Seq<ProbeResult>;

    closed spec fn view(&self) -> Seq<ProbeResult> {
        self.results@
    }
}

impl ScanReport {
    #[verifier::type_invariant]
    closed spec fn valid(self) -> bool {
        self.target@.wf() && consistent(self.target@, self.results@)
    }

    /// The target that was scanned.
    pub closed spec fn scanned(&self) -> TargetView {
        self.target@
    }

    /// Builds the report of a scan of `target` from the results that reached
    /// the collector, in the order in which they arrived.
    pub fn assemble(target: Target, delivered: &Vec<ProbeResult>) -> (report: ScanReport)
        ensures
            report.scanned() == target@,
            report@ == admitted(target@, delivered@),
            consistent(target@, report@),
            report@.len() <= target@.count(),
    {
        let address = target.address();
        let start = target.start();
        let count = target.port_count();
        let ghost goal = target@;
        // `seen[k]` says whether the port `start + k` is reported already.
        let mut seen: Vec<bool> = Vec::new();
        let mut k: u32 = 0;
        while k < count
            invariant
                k <= count,
                seen@.len() == k,
                forall|j: int| 0 <= j < k ==> !(#[trigger] seen@[j]),
            decreases count - k,
        {
            seen.push(false);
            k = k + 1;
        }
        let mut results: Vec<ProbeResult> = Vec::new();
        let mut i: usize = 0;
        while i < delivered.len()
            invariant
                i <= delivered@.len(),
                goal == target@,
                goal.wf(),
                address == goal.address,
                start == goal.start,
                seen@.len() == goal.count(),
                results@ == admitted(goal, delivered@.take(i as int)),
                forall|j: int|
                    0 <= j < seen@.len() ==> (#[trigger] seen@[j] <==> results@.contains(
                        ProbeResult { address, port: (start + j) as u16 },
                    )),
            decreases delivered@.len() - i,
        {
            let result = delivered[i];
            let ghost before = results@;
            proof {
                let upto = delivered@.take(i as int + 1);
                assert(upto.drop_last() =~= delivered@.take(i as int));
            }
            if result.address == address && target.contains(result.port) {
                let slot = (result.port - start) as usize;
                if !seen[slot] {
                    seen.set(slot, true);
                    results.push(result);
                    assert forall|j: int| 0 <= j < seen@.len() implies (#[trigger] seen@[j]
                        <==> results@.contains(
                        ProbeResult { address, port: (start + j) as u16 },
                    )) by {
                        lemma_seq_contains_after_push(
                            before,
                            result,
                            ProbeResult { address, port: (start + j) as u16 },
                        );
                    }
                }
            }
            i = i + 1;
        }
        proof {
            assert(delivered@.take(i as int) =~= delivered@);
            lemma_admitted(goal, delivered@);
            lemma_consistent_len(goal, results@);
        }
        ScanReport { target, results }
    }

    /// The target that was scanned.
    pub fn target(&self) -> (target: Target)
        ensures
            target@ == self.scanned(),
    {
        self.target
    }

    /// The reported results, in the order of their delivery. Each names the
    /// scanned address and a port of the scanned range, and no two are equal.
    pub fn results(&self) -> (results: &Vec<ProbeResult>)
        ensures
            results@ == self@,
            consistent(self.scanned(), self@),
            self@.len() <= self.scanned().count(),
    {
        proof {
            use_type_invariant(self);
            lemma_consistent_len(self.target@, self.results@);
        }
        &self.results
    }

    /// The number of open ports found.
    pub fn len(&self) -> (n: usize)
        ensures
            n == self@.len(),
            n <= self.scanned().count(),
    {
        proof {
            use_type_invariant(self);
            lemma_consistent_len(self.target@, self.results@);
        }
        self.results.len()
    }
}

} // verus!
