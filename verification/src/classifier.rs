//! The protocol classifier: a bounded, non-consuming look at the first bytes
//! of a connection decides which backend the connection is destined for.
//!
//! Policy: a sample that contains the marker text `SSH`, an empty sample, or
//! a peek that ran out of its deadline all select the shell-tunnel backend;
//! a non-empty sample without the marker selects the VPN-tunnel backend.
//! Favouring the shell tunnel on ambiguity or timeout is deliberate.

use vstd::prelude::*;

use crate::route::Backend;

verus! {

/// The marker bytes `SSH` that select the shell-tunnel backend.
pub open spec fn ssh_marker() -> Seq<u8> {
    seq![83u8, 83u8, 72u8]
}

/// True when the marker occurs as a contiguous run anywhere in `s`.
pub open spec fn contains_ssh(s: Seq<u8>) -> bool {
    exists|i: int| 0 <= i && i + 3 <= s.len() && #[trigger] s.subrange(i, i + 3) == ssh_marker()
}

/// Scans a sample for the marker.
pub fn sample_contains_ssh(sample: &Vec<u8>) -> (r: bool)
    ensures
        r == contains_ssh(sample@),
{
    if sample.len() < 3 {
        return false;
    }
    let mut i: usize = 0;
    while i <= sample.len() - 3
        invariant
            3 <= sample.len(),
            i + 3 <= sample.len() + 1,
            forall|j: int| 0 <= j < i ==> #[trigger] sample@.subrange(j, j + 3) != ssh_marker(),
        decreases sample.len() - i,
    {
        if sample[i] == 83 && sample[i + 1] == 83 && sample[i + 2] == 72 {
            proof {
                assert(sample@.subrange(i as int, i as int + 3) =~= ssh_marker());
            }
            return true;
        }
        proof {
            let ii = i as int;
            assert(sample@.subrange(ii, ii + 3)[0] == sample@[ii]);
            assert(sample@.subrange(ii, ii + 3)[1] == sample@[ii + 1]);
            assert(sample@.subrange(ii, ii + 3)[2] == sample@[ii + 2]);
        }
        i += 1;
    }
    false
}

/// What the bounded peek produced: a byte sample (possibly empty), or
/// nothing because the deadline passed first.
pub enum PeekOutcome {
    Sample(Vec<u8>),
    TimedOut,
}

/// The classification policy over a peek outcome.
pub open spec fn classify_spec(o: PeekOutcome) -> Backend {
    match o {
        PeekOutcome::Sample(s) => {
            if contains_ssh(s@) || s@.len() == 0 {
                Backend::ShellTunnel
            } else {
                Backend::VpnTunnel
            }
        },
        PeekOutcome::TimedOut => Backend::ShellTunnel,
    }
}

/// Classifies a peek outcome.
pub fn classify(outcome: &PeekOutcome) -> (r: Backend)
    ensures
        r == classify_spec(*outcome),
{
    match outcome {
        PeekOutcome::Sample(s) => {
            if sample_contains_ssh(s) || s.len() == 0 {
                Backend::ShellTunnel
            } else {
                Backend::VpnTunnel
            }
        },
        PeekOutcome::TimedOut => Backend::ShellTunnel,
    }
}

/// Classifier determinism: a sample holding the marker always selects the
/// shell tunnel; a non-empty sample without it always selects the VPN
/// tunnel; an empty sample or a timed-out peek always selects the shell
/// tunnel.
pub proof fn lemma_classifier_determinism(o: PeekOutcome)
    ensures
        (o matches PeekOutcome::Sample(s) && contains_ssh(s@)) ==> classify_spec(o)
            == Backend::ShellTunnel,
        (o matches PeekOutcome::Sample(s) && s@.len() == 0) ==> classify_spec(o)
            == Backend::ShellTunnel,
        (o matches PeekOutcome::Sample(s) && !contains_ssh(s@) && s@.len() > 0) ==> classify_spec(o)
            == Backend::VpnTunnel,
        (o matches PeekOutcome::TimedOut) ==> classify_spec(o) == Backend::ShellTunnel,
{
}

} // verus!
