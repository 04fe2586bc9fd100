//! A target's record: its current status and two timestamps.

use crate::status::SystemStatus;
use vstd::prelude::*;
use vstd::string::*;

verus! {

/// The record of one monitored target.
///
/// `created` is the time at which the target entered its current status, not
/// the time at which the record was made; zero means that no observation has
/// been applied yet. `updated` is the time of the latest check.
#[derive(Clone, Debug)]
pub struct SystemInfo {
    pub id: String,
    pub status: SystemStatus,
    pub updated: u64,
    pub created: u64,
}

/// What a record holds, as plain values.
pub struct SystemInfoView {
    pub id: Seq<char>,
    pub status: SystemStatus,
    pub updated: nat,
    pub created: nat,
}

impl View for SystemInfo {
    type V = SystemInfoView;

    open spec fn view(&self) -> SystemInfoView {
        SystemInfoView {
            id: self.id@,
            status: self.status,
            updated: self.updated as nat,
            created: self.created as nat,
        }
    }
}

/// The record with which every target starts: green, with both timestamps unset.
pub open spec fn fresh_record(id: Seq<char>) -> SystemInfoView {
    SystemInfoView { id, status: SystemStatus::Green, updated: 0, created: 0 }
}

/// Whether observing `observed` starts a new period in the record: the status
/// differs from the recorded one, or nothing has been observed yet.
pub open spec fn is_transition(record: SystemInfoView, observed: SystemStatus) -> bool {
    observed != record.status || record.created == 0
}

/// The record after `observed` has been seen at time `now`.
pub open spec fn observe(record: SystemInfoView, observed: SystemStatus, now: nat) -> SystemInfoView {
    if is_transition(record, observed) {
        SystemInfoView { id: record.id, status: observed, updated: now, created: now }
    } else {
        SystemInfoView { id: record.id, status: record.status, updated: now, created: record.created }
    }
}

impl SystemInfo {
    /// A record for the target `id` that has not been checked yet.
    pub fn new(id: &str) -> (record: SystemInfo)
        ensures
            record@ == fresh_record(id@),
    {
        SystemInfo { id: String::from_str(id), status: SystemStatus::Green, created: 0, updated: 0 }
    }

    /// Folds one observation into the record: `observed` was seen at `now`.
    ///
    /// The status and `created` move only on a transition; `updated` always
    /// becomes `now`. No history is kept and nothing is debounced.
    pub fn apply_observation(&mut self, observed: SystemStatus, now: u64)
        ensures
            final(self)@ == observe(old(self)@, observed, now as nat),
    {
        if self.status != observed || self.created == 0 {
            self.status = observed;
            self.created = now;
        }
        self.updated = now;
    }
}

/// One check of a target: the status that was seen, and the time of the check.
pub struct Observation {
    pub status: SystemStatus,
    pub at: nat,
}

/// The record after a run of checks, applied in order.
pub open spec fn replay(record: SystemInfoView, checks: Seq<Observation>) -> SystemInfoView
    decreases checks.len(),
{
    if checks.len() == 0 {
        record
    } else {
        observe(replay(record, checks.drop_last()), checks.last().status, checks.last().at)
    }
}

/// `created` does not lie after `updated`.
pub open spec fn timestamps_ordered(record: SystemInfoView) -> bool {
    record.created <= record.updated
}

/// No check of the run is earlier than the record's latest check or than a
/// check before it.
pub open spec fn clock_never_runs_back(record: SystemInfoView, checks: Seq<Observation>) -> bool {
    &&& forall|i: int| 0 <= i < checks.len() ==> record.updated <= (#[trigger] checks[i]).at
    &&& forall|i: int, j: int|
        0 <= i <= j < checks.len() ==> (#[trigger] checks[i]).at <= (#[trigger] checks[j]).at
}

/// The record before check `k` of a run: the checks before it have been
/// applied.
pub open spec fn before_check(record: SystemInfoView, checks: Seq<Observation>, k: int) -> SystemInfoView {
    replay(record, checks.take(k))
}

/// The record after check `k` of a run.
pub open spec fn after_check(record: SystemInfoView, checks: Seq<Observation>, k: int) -> SystemInfoView {
    replay(record, checks.take(k + 1))
}

/// Each check of a run is one observation, applied to what the checks before
/// it left. It leaves `updated` at its own time and never changes the id.
pub proof fn lemma_each_check_is_one_observation(
    record: SystemInfoView,
    checks: Seq<Observation>,
    k: int,
)
    requires
        0 <= k < checks.len(),
    ensures
        after_check(record, checks, k) == observe(
            before_check(record, checks, k),
            checks[k].status,
            checks[k].at,
        ),
        after_check(record, checks, k).updated == checks[k].at,
        after_check(record, checks, k).id == before_check(record, checks, k).id,
{
    let upto = checks.take(k + 1);
    assert(upto.drop_last() =~= checks.take(k));
    assert(upto.last() == checks[k]);
}

/// In any run of checks, a check that is not earlier than the one before it
/// never lets `updated` decrease, and leaves it as it was only where the two
/// times are the same.
pub proof fn lemma_updated_follows_the_clock(
    record: SystemInfoView,
    checks: Seq<Observation>,
    k: int,
)
    requires
        0 <= k < checks.len(),
        before_check(record, checks, k).updated <= checks[k].at,
    ensures
        before_check(record, checks, k).updated <= after_check(record, checks, k).updated,
        after_check(record, checks, k).updated == before_check(record, checks, k).updated
            <==> checks[k].at == before_check(record, checks, k).updated,
{
    lemma_each_check_is_one_observation(record, checks, k);
}

/// In any run of checks, a check changes `created` if and only if it is a
/// transition: it sees another status than the recorded one, or it is the
/// first observation ever. The time of the check must not be the very
/// `created` that it finds: writing that value again changes nothing.
pub proof fn lemma_created_moves_on_transitions_only(
    record: SystemInfoView,
    checks: Seq<Observation>,
    k: int,
)
    requires
        0 <= k < checks.len(),
        checks[k].at != before_check(record, checks, k).created,
    ensures
        after_check(record, checks, k).created != before_check(record, checks, k).created
            <==> is_transition(before_check(record, checks, k), checks[k].status),
{
    lemma_each_check_is_one_observation(record, checks, k);
}

/// Observing the same status a second time moves `updated` to the time of the
/// second check and leaves the status and `created` as the first check set
/// them. The first check must have left `created` set: a check at time zero
/// leaves it at the value that stands for "never observed".
pub proof fn lemma_same_status_twice(
    record: SystemInfoView,
    observed: SystemStatus,
    first: nat,
    second: nat,
)
    requires
        observe(record, observed, first).created != 0,
    ensures
        ({
            let once = observe(record, observed, first);
            let twice = observe(once, observed, second);
            &&& twice.status == once.status
            &&& twice.created == once.created
            &&& twice.updated == second
            &&& twice.id == once.id
        }),
{
}

/// With a clock that never runs back, a run of checks keeps `created` at or
/// before `updated` and lets neither timestamp decrease.
pub proof fn lemma_run_keeps_timestamps_ordered(record: SystemInfoView, checks: Seq<Observation>)
    requires
        timestamps_ordered(record),
        clock_never_runs_back(record, checks),
    ensures
        timestamps_ordered(replay(record, checks)),
        record.updated <= replay(record, checks).updated,
        record.created <= replay(record, checks).created,
        replay(record, checks).id == record.id,
        checks.len() > 0 ==> replay(record, checks).updated == checks.last().at,
    decreases checks.len(),
{
    if checks.len() > 0 {
        let earlier = checks.drop_last();
        assert forall|i: int| 0 <= i < earlier.len() implies record.updated <= (
        #[trigger] earlier[i]).at by {
            assert(earlier[i] == checks[i]);
        }
        assert forall|i: int, j: int| 0 <= i <= j < earlier.len() implies (#[trigger] earlier[i]).at
            <= (#[trigger] earlier[j]).at by {
            assert(earlier[i] == checks[i]);
            assert(earlier[j] == checks[j]);
        }
        lemma_run_keeps_timestamps_ordered(record, earlier);
        if earlier.len() > 0 {
            assert(earlier.last() == checks[checks.len() - 2]);
            assert(checks[checks.len() - 2].at <= checks[checks.len() - 1].at);
        } else {
            assert(record.updated <= checks[checks.len() - 1].at);
        }
    }
}

/// The first check of a fresh record is a transition whatever it sees: it sets
/// the status and both timestamps.
pub proof fn lemma_first_check_sets_everything(id: Seq<char>, observed: SystemStatus, now: nat)
    ensures
        observe(fresh_record(id), observed, now) == (SystemInfoView {
            id,
            status: observed,
            updated: now,
            created: now,
        }),
{
}

} // verus!
