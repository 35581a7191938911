//! Update-reconciliation decisions.
//!
//! One cycle takes a freshly detected address and the configured
//! providers in order. Per provider it decides whether to skip (the
//! record already holds the detected address and no force flag is set)
//! or to update, and it records every non-skipped outcome. One provider's
//! failure never aborts the others: the cycle yields one outcome per
//! provider.

use vstd::prelude::*;

use crate::ip::IpAddress;
use crate::config::ProviderConfig;
use crate::history::{History, spec_push};
use crate::providers::UpdateResult;

verus! {

/// Whether a cycle proceeds to the update call: always under force;
/// otherwise exactly when the provider could not report a current value
/// or reported one different from the detected address. Address equality
/// is value equality of the parsed addresses.
pub fn should_update(force: bool, current: Option<IpAddress>, detected: &IpAddress) -> (r: bool)
    ensures
        r == (force || current != Some(*detected)),
{
    if force {
        true
    } else {
        match current {
            Some(c) => !(c == *detected),
            None => true,
        }
    }
}

/// Whether a daemon cycle acts at all: exactly when the detected address
/// differs from the last one observed, the first observation included.
pub fn ip_changed(last: Option<IpAddress>, current: &IpAddress) -> (r: bool)
    ensures
        r == (last != Some(*current)),
{
    match last {
        Some(l) => !(l == *current),
        None => true,
    }
}

/// One daemon observation: whether this cycle updates the providers, and
/// the last-observed value it leaves behind. A successful detection acts
/// exactly when it differs from the last observed value (the first
/// observation included) and becomes the new observed value; a failed
/// detection acts on nothing and leaves the observed value as it was.
pub fn daemon_step(last: Option<IpAddress>, detected: Option<IpAddress>) -> (r: (
    bool,
    Option<IpAddress>,
))
    ensures
        r.0 == (detected is Some && last != detected),
        detected is Some ==> r.1 == detected,
        detected is None ==> r.1 == last,
{
    match detected {
        Some(a) => (ip_changed(last, &a), Some(a)),
        None => (false, last),
    }
}

/// The outcome of one provider within one cycle.
#[derive(Clone, Debug)]
pub enum CycleOutcome {
    /// The record already held the detected address; no update was made.
    Skipped {
        /// Vendor identifier.
        provider: String,
        /// The record concerned.
        domain: String,
    },
    /// The provider answered the update call: a success or a vendor
    /// rejection, both carried in the result.
    Completed(UpdateResult),
    /// Transport or protocol failure reaching the provider; no result
    /// exists.
    HardError {
        /// Vendor identifier.
        provider: String,
        /// The record concerned.
        domain: String,
        /// The rendered failure.
        message: String,
    },
}

impl CycleOutcome {
    /// Every completed outcome carries a well-formed result.
    pub open spec fn wf(self) -> bool {
        match self {
            CycleOutcome::Completed(r) => r.wf(),
            _ => true,
        }
    }
}

/// Record one outcome: every completed result, success or soft failure,
/// is appended to the history; skips and hard errors leave it unchanged.
pub fn record_outcome(history: &mut History, outcome: &CycleOutcome)
    requires
        old(history).wf(),
    ensures
        final(history).wf(),
        final(history).max_entries == old(history).max_entries,
        match outcome {
            CycleOutcome::Completed(r) => final(history).entries@ == spec_push(
                old(history).entries@,
                old(history).max_entries as nat,
                *r,
            ),
            _ => final(history).entries@ == old(history).entries@,
        },
{
    match outcome {
        CycleOutcome::Completed(r) => {
            let entry = r.clone();
            history.push(entry);
        },
        _ => {},
    }
}

/// The first configured entry of a given vendor, by position.
pub fn find_provider_config(providers: &Vec<ProviderConfig>, name: &str) -> (r: Option<usize>)
    ensures
        match r {
            Some(i) => i < providers@.len() && providers@[i as int].spec_name() == name@ && (forall|
                j: int,
            |
                0 <= j < i ==> providers@[j].spec_name() != name@),
            None => forall|j: int| 0 <= j < providers@.len() ==> providers@[j].spec_name() != name@,
        },
{
    let len = providers.len();
    let mut i: usize = 0;
    while i < len
        invariant
            len == providers@.len(),
            i <= len,
            forall|j: int| 0 <= j < i ==> providers@[j].spec_name() != name@,
        decreases len - i,
    {
        if crate::text::str_eq(providers[i].name(), name) {
            return Some(i);
        }
        i = i + 1;
    }
    None
}

} // verus!
