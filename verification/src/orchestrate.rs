//! Driving a whole manifest: one independent fetch per entry, every
//! entry's outcome collected, and the outcomes reduced into one summary.
//! Entries share no mutable state, so the per-entry work may run in any
//! order or in parallel; this module is its sequential model, stated
//! entry by entry.

use vstd::prelude::*;
use crate::aggregate::{failures_of, successes_of, AggregatedResult};
use crate::fetch::{
    all_attempts_failed, failure_reasons, first_delivery, run_mirrors, AttemptEvent,
    DownloadOutcome, DownloadStatus,
};
use crate::manifest::{File, MrPack};
use crate::text::{resolve_mod_name, resolved_name};

verus! {

/// The outcome `o` is exactly what processing entry `f` against the
/// attempt results `evs` must produce: the name is resolved from the
/// entry's path, the entry succeeds precisely when some mirror delivers,
/// a success reports the first delivering mirror, and a failure reports
/// one reason per mirror, in declared order.
pub open spec fn entry_outcome_ok(f: File, evs: Seq<AttemptEvent>, o: DownloadOutcome) -> bool {
    &&& o.name@ == resolved_name(f.path@)
    &&& (o.status matches DownloadStatus::Success { mirror } ==> first_delivery(
        evs,
        mirror as int,
    ))
    &&& (o.status matches DownloadStatus::Failed { reasons } ==> (all_attempts_failed(evs)
        && reasons@ == failure_reasons(evs)))
    &&& ((o.status is Success) <==> !all_attempts_failed(evs))
}

/// Processes one manifest entry: resolves its destination name and runs
/// its mirrors, in declared order, against the given attempt results.
pub fn process_entry(f: &File, events: &Vec<AttemptEvent>) -> (o: DownloadOutcome)
    requires
        events@.len() == f.downloads@.len(),
    ensures
        entry_outcome_ok(*f, events@, o),
{
    let name = resolve_mod_name(f.path.as_str());
    let status = run_mirrors(f.downloads.len(), events);
    DownloadOutcome { name, status }
}

/// Processes every entry of a manifest against per-entry attempt results
/// (one result per mirror of each entry), producing exactly one outcome
/// per entry, in manifest order.
pub fn run_entries(pack: &MrPack, attempts: &Vec<Vec<AttemptEvent>>) -> (os: Vec<DownloadOutcome>)
    requires
        attempts@.len() == pack.files@.len(),
        forall|i: int| 0 <= i < attempts@.len() ==> (#[trigger] attempts@[i])@.len()
            == pack.files@[i].downloads@.len(),
    ensures
        os@.len() == pack.files@.len(),
        forall|i: int| 0 <= i < os@.len() ==> entry_outcome_ok(
            pack.files@[i],
            attempts@[i]@,
            #[trigger] os@[i],
        ),
{
    let mut os: Vec<DownloadOutcome> = Vec::new();
    let mut i: usize = 0;
    while i < pack.files.len()
        invariant
            attempts@.len() == pack.files@.len(),
            forall|k: int| 0 <= k < attempts@.len() ==> (#[trigger] attempts@[k])@.len()
                == pack.files@[k].downloads@.len(),
            0 <= i <= pack.files@.len(),
            os@.len() == i,
            forall|k: int| 0 <= k < i ==> entry_outcome_ok(
                pack.files@[k],
                attempts@[k]@,
                #[trigger] os@[k],
            ),
        decreases pack.files@.len() - i,
    {
        let o = process_entry(&pack.files[i], &attempts[i]);
        os.push(o);
        i = i + 1;
    }
    os
}

/// A whole completed run: one outcome per manifest entry, and the
/// outcomes reduced into one summary whose two sides together hold
/// exactly one name per entry.
pub fn run_manifest(pack: &MrPack, attempts: &Vec<Vec<AttemptEvent>>) -> (r: (
    Vec<DownloadOutcome>,
    AggregatedResult,
))
    requires
        attempts@.len() == pack.files@.len(),
        forall|i: int| 0 <= i < attempts@.len() ==> (#[trigger] attempts@[i])@.len()
            == pack.files@[i].downloads@.len(),
    ensures
        r.0@.len() == pack.files@.len(),
        forall|i: int| 0 <= i < r.0@.len() ==> entry_outcome_ok(
            pack.files@[i],
            attempts@[i]@,
            #[trigger] r.0@[i],
        ),
        r.1.successes@ == successes_of(r.0@),
        r.1.failures@ == failures_of(r.0@),
        r.1.successes@.len() + r.1.failures@.len() == pack.files@.len(),
{
    let outcomes = run_entries(pack, attempts);
    let summary = AggregatedResult::aggregate(&outcomes);
    (outcomes, summary)
}

/// Law: an entry whose mirrors are all unreachable is reported failed,
/// and, as long as it has any mirror at all, with a non-empty list of
/// recorded reasons: one per attempted mirror, in order.
pub proof fn lemma_all_unreachable_fails(f: File, evs: Seq<AttemptEvent>, o: DownloadOutcome)
    requires
        entry_outcome_ok(f, evs, o),
        all_attempts_failed(evs),
        evs.len() > 0,
    ensures
        o.status is Failed,
        o.status matches DownloadStatus::Failed { reasons } ==> (reasons@.len() == evs.len()
            && reasons@.len() > 0),
{
}

/// Law: mirror order is respected. When mirror `i` delivers and every
/// mirror before it fails, the entry succeeds through mirror `i` and no
/// other: later mirrors are never reached.
pub proof fn lemma_mirror_order_respected(
    f: File,
    evs: Seq<AttemptEvent>,
    o: DownloadOutcome,
    i: int,
)
    requires
        entry_outcome_ok(f, evs, o),
        0 <= i < evs.len(),
        evs[i] is Delivered,
        forall|j: int| 0 <= j < i ==> !((#[trigger] evs[j]) is Delivered),
    ensures
        (o.status matches DownloadStatus::Success { mirror } && mirror == i),
{
    assert(evs[i] is Delivered);
    assert(!all_attempts_failed(evs));
    let m = o.status->Success_mirror;
    assert(first_delivery(evs, m as int));
    crate::fetch::lemma_mirror_order(evs, i, m as int);
}

} // verus!
