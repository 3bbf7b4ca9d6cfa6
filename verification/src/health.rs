//! Gathering the health records of a round of probes, and finding the record
//! that belongs to a device.

use vstd::prelude::*;
use crate::smartctl::{SmartCtl, SmartCtlError};
use crate::text::same_text;

verus! {

/// What one probe task handed back: the device it was started for, and the
/// record or the reason why there is none.
#[derive(Debug)]
pub struct ProbeReport {
    pub device: String,
    pub result: Result<SmartCtl, SmartCtlError>,
}

/// A health record filed under an identity.
struct HealthEntry {
    identity: String,
    record: SmartCtl,
}

/// The health records of one round of probes, each under the identity that the
/// probe tool reported. A later record replaces an earlier one of the same
/// identity.
pub struct HealthIndex {
    entries: Vec<HealthEntry>,
}

/// The mapping that a sequence of entries stands for: a later entry wins.
spec fn filed(entries: Seq<HealthEntry>) -> Map<Seq<char>, SmartCtl>
    decreases entries.len(),
{
    if entries.len() == 0 {
        Map::empty()
    } else {
        filed(entries.drop_last()).insert(entries.last().identity@, entries.last().record)
    }
}

/// The mapping that a round of probes comes to, task by task in the order of
/// their completion: each record is filed under its identity, a probe that
/// failed files nothing.
pub open spec fn gathered(tasks: Seq<Result<ProbeReport, String>>) -> Map<Seq<char>, SmartCtl>
    decreases tasks.len(),
{
    if tasks.len() == 0 {
        Map::empty()
    } else {
        let before = gathered(tasks.drop_last());
        match tasks.last() {
            Ok(report) => match report.result {
                Ok(record) => before.insert(record.identity(report.device@), record),
                Err(_) => before,
            },
            Err(_) => before,
        }
    }
}

/// The reason of the first task that could not be joined, if there is one.
pub open spec fn first_abort(tasks: Seq<Result<ProbeReport, String>>) -> Option<String>
    decreases tasks.len(),
{
    if tasks.len() == 0 {
        None
    } else {
        match first_abort(tasks.drop_last()) {
            Some(reason) => Some(reason),
            None => match tasks.last() {
                Ok(_) => None,
                Err(reason) => Some(reason),
            },
        }
    }
}

impl View for HealthIndex {
    type V = Map<Seq<char>, SmartCtl>;

    closed spec fn view(&self) -> Map<Seq<char>, SmartCtl> {
        filed(self.entries@)
    }
}

impl HealthIndex {
    /// An index that holds no record.
    pub fn new() -> (index: HealthIndex)
        ensures
            index@ == Map::<Seq<char>, SmartCtl>::empty(),
    {
        HealthIndex { entries: Vec::new() }
    }

    /// Files `record` under `identity`, in place of any record filed there before.
    pub fn insert(&mut self, identity: String, record: SmartCtl)
        ensures
            final(self)@ == old(self)@.insert(identity@, record),
    {
        let ghost before = self.entries@;
        self.entries.push(HealthEntry { identity, record });
        assert(self.entries@.drop_last() == before);
    }

    /// The record filed under `identity`, if there is one.
    pub fn lookup(&self, identity: &str) -> (found: Option<&SmartCtl>)
        ensures
            match found {
                Some(record) => self@.contains_key(identity@) && *record == self@[identity@],
                None => !self@.contains_key(identity@),
            },
    {
        let mut i: usize = self.entries.len();
        assert(self.entries@.take(i as int) == self.entries@);
        while i > 0
            invariant
                i <= self.entries@.len(),
                filed(self.entries@).contains_key(identity@) == filed(
                    self.entries@.take(i as int),
                ).contains_key(identity@),
                filed(self.entries@)[identity@] == filed(self.entries@.take(i as int))[identity@],
            decreases i,
        {
            assert(self.entries@.take(i as int).drop_last() == self.entries@.take(i as int - 1));
            i = i - 1;
            if same_text(self.entries[i].identity.as_str(), identity) {
                return Some(&self.entries[i].record);
            }
        }
        None
    }

    /// Gathers a round of probes, the tasks in the order of their completion.
    ///
    /// A task that could not be joined fails the whole round, with its reason.
    /// A probe that failed does not: its device is left without a record.
    pub fn collect(tasks: Vec<Result<ProbeReport, String>>) -> (r: Result<HealthIndex, String>)
        ensures
            match first_abort(tasks@) {
                Some(reason) => r == Err::<HealthIndex, String>(reason),
                None => r matches Ok(index) && index@ == gathered(tasks@),
            },
    {
        let ghost all = tasks@;
        let mut index = HealthIndex::new();
        assert(all.take(0) =~= Seq::<Result<ProbeReport, String>>::empty());
        for task in it: tasks
            invariant
                it.seq() == all,
                first_abort(all.take(it.index() as int)) is None,
                index@ == gathered(all.take(it.index() as int)),
        {
            assert(all.take(it.index() + 1).drop_last() == all.take(it.index() as int));
            match task {
                Err(reason) => {
                    proof {
                        lemma_first_abort_stays(all, it.index() + 1);
                    }
                    return Err(reason);
                },
                Ok(report) => {
                    match report.result {
                        Ok(record) => {
                            let identity = record.correlation_key(report.device.as_str());
                            index.insert(identity, record);
                        },
                        Err(_) => {},
                    }
                },
            }
        }
        assert(all.take(all.len() as int) == all);
        Ok(index)
    }
}

/// Once a prefix of the tasks holds an abort, the first abort of the whole
/// sequence is that of the prefix.
proof fn lemma_first_abort_stays(tasks: Seq<Result<ProbeReport, String>>, n: int)
    requires
        0 <= n <= tasks.len(),
        first_abort(tasks.take(n)) is Some,
    ensures
        first_abort(tasks) == first_abort(tasks.take(n)),
    decreases tasks.len() - n,
{
    if n == tasks.len() {
        assert(tasks.take(n) == tasks);
    } else {
        assert(tasks.take(n + 1).drop_last() == tasks.take(n));
        lemma_first_abort_stays(tasks, n + 1);
    }
}

/// Whether the task `task` files a record under `identity`.
pub open spec fn files_under(task: Result<ProbeReport, String>, identity: Seq<char>) -> bool {
    task matches Ok(report) && report.result matches Ok(record) && record.identity(report.device@)
        == identity
}

/// An identity under which no task files a record has none in what the round
/// comes to. So a device whose probe failed, and whose identity no other probe
/// reported, is left without a record.
pub proof fn lemma_gathered_without(tasks: Seq<Result<ProbeReport, String>>, identity: Seq<char>)
    requires
        forall|i: int| 0 <= i < tasks.len() ==> !files_under(#[trigger] tasks[i], identity),
    ensures
        !gathered(tasks).contains_key(identity),
    decreases tasks.len(),
{
    if tasks.len() > 0 {
        assert forall|i: int| 0 <= i < tasks.drop_last().len() implies !files_under(
            #[trigger] tasks.drop_last()[i],
            identity,
        ) by {
            assert(tasks.drop_last()[i] == tasks[i]);
        }
        lemma_gathered_without(tasks.drop_last(), identity);
        assert(!files_under(tasks[tasks.len() - 1], identity));
    }
}

/// The record of a probe that succeeded is what the round holds under its
/// identity, unless a later task filed another record there; the failures of
/// other probes do not touch it.
pub proof fn lemma_gathered_holds(
    tasks: Seq<Result<ProbeReport, String>>,
    at: int,
    report: ProbeReport,
    record: SmartCtl,
)
    requires
        0 <= at < tasks.len(),
        tasks[at] == Ok::<ProbeReport, String>(report),
        report.result == Ok::<SmartCtl, SmartCtlError>(record),
        forall|i: int|
            at < i < tasks.len() ==> !files_under(
                #[trigger] tasks[i],
                record.identity(report.device@),
            ),
    ensures
        gathered(tasks).get(record.identity(report.device@)) == Some(record),
    decreases tasks.len(),
{
    let identity = record.identity(report.device@);
    if at < tasks.len() - 1 {
        assert(tasks.drop_last()[at] == tasks[at]);
        assert forall|i: int| at < i < tasks.drop_last().len() implies !files_under(
            #[trigger] tasks.drop_last()[i],
            identity,
        ) by {
            assert(tasks.drop_last()[i] == tasks[i]);
        }
        lemma_gathered_holds(tasks.drop_last(), at, report, record);
        assert(!files_under(tasks[tasks.len() - 1], identity));
    }
}

} // verus!
