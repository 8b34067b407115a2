//! Batches of commands. Commands are queued under a key. All commands of
//! one key run one after the other, in the order they were queued, on one
//! progress indicator; different keys are independent of each other.

use crate::printer::{new_bar, section_title, PrinterState};
use crate::process::ExecuteOptions;
use crate::progress::{MultiProgress, MultiProgressBar};
use crate::scope::Section;
use vstd::prelude::*;
use vstd::string::*;

verus! {

/// A command that is queued to run later.
pub struct ExecuteLater {
    /// The program.
    pub command: String,
    /// How to run it.
    pub options: ExecuteOptions,
}

/// The commands queued under one key, in the order they are to run.
pub struct Group {
    pub key: Seq<char>,
    pub specs: Seq<ExecuteLater>,
}

/// Whether a key is in the queue.
pub open spec fn has_key(groups: Seq<Group>, key: Seq<char>) -> bool {
    exists|i: int| 0 <= i < groups.len() && #[trigger] groups[i].key == key
}

/// No key stands twice in the queue.
pub open spec fn distinct_keys(groups: Seq<Group>) -> bool {
    forall|i: int, j: int|
        0 <= i < groups.len() && 0 <= j < groups.len() && i != j ==> #[trigger] groups[i].key
            != #[trigger] groups[j].key
}

/// The queue after `specs` were added under `key`: behind what the key
/// holds already, or as a new key behind the others.
pub open spec fn added(groups: Seq<Group>, key: Seq<char>, specs: Seq<ExecuteLater>) -> Seq<Group> {
    if has_key(groups, key) {
        Seq::new(
            groups.len(),
            |i: int|
                if groups[i].key == key {
                    Group { key, specs: groups[i].specs + specs }
                } else {
                    groups[i]
                },
        )
    } else {
        groups.push(Group { key, specs })
    }
}

/// The title of the section that a batch runs in.
pub open spec fn batch_title() -> Seq<char> {
    "Execute Batch"@
}

/// The sink after a batch was planned on it: untouched by an empty batch,
/// else with the title of the batch's section written.
pub open spec fn planned(sink: PrinterState, groups: Seq<Group>) -> PrinterState {
    if groups.len() == 0 {
        sink
    } else {
        sink.wrote(section_title(batch_title(), sink.indent))
    }
}

/// One key of a batch that is being run: its indicator and the commands
/// that are still to run, first one first.
pub struct ExecutionUnit {
    /// The key.
    pub key: String,
    /// The indicator that all commands of the key run on.
    pub progress: MultiProgressBar,
    /// The commands that are still to run.
    pub specs: Vec<ExecuteLater>,
}

impl ExecutionUnit {
    /// Whether `self` is the unit of `group`, with a fresh spinner made for
    /// a sink in state `sink`.
    pub open spec fn runs(self, group: Group, sink: PrinterState) -> bool {
        &&& self.key@ == group.key
        &&& self.specs@ == group.specs
        &&& self.progress@ == new_bar(sink, group.key, None, None)
    }

    /// Takes the command that is to run next: the first of those left.
    /// `None` when the key is done.
    pub fn take_next(&mut self) -> (next: Option<ExecuteLater>)
        ensures
            final(self).key == old(self).key,
            final(self).progress == old(self).progress,
            old(self).specs@.len() == 0 ==> next is None && final(self).specs@ == old(self).specs@,
            old(self).specs@.len() > 0 ==> next == Some(old(self).specs@[0]) && final(self).specs@
                == old(self).specs@.drop_first(),
    {
        if self.specs.len() == 0 {
            None
        } else {
            let next = self.specs.remove(0);
            proof {
                assert(old(self).specs@.remove(0) =~= old(self).specs@.drop_first());
            }
            Some(next)
        }
    }

    /// Gives up the commands that are left, after one of the key has
    /// failed: a failure ends its own key and no other. Returns how many
    /// commands were given up.
    pub fn abandon(&mut self) -> (skipped: usize)
        ensures
            final(self).key == old(self).key,
            final(self).progress == old(self).progress,
            final(self).specs@.len() == 0,
            skipped == old(self).specs@.len(),
    {
        let skipped: usize = self.specs.len();
        self.specs.clear();
        skipped
    }
}

struct BatchEntry {
    key: String,
    specs: Vec<ExecuteLater>,
}

/// The view of stored entries.
spec fn groups_of(entries: Seq<BatchEntry>) -> Seq<Group> {
    Seq::new(entries.len(), |i: int| Group { key: entries[i].key@, specs: entries[i].specs@ })
}

/// Makes one unit for each entry, in order, each with a spinner of the
/// group that is named by the entry's key.
fn plan_units(bars: &mut MultiProgress, entries: Vec<BatchEntry>) -> (units: Vec<ExecutionUnit>)
    ensures
        *final(bars) == *old(bars),
        units@.len() == entries@.len(),
        forall|i: int|
            0 <= i < units@.len() ==> (#[trigger] units@[i]).runs(
                groups_of(entries@)[i],
                old(bars).printer@,
            ),
{
    let ghost queued = groups_of(entries@);
    let mut entries = entries;
    let mut units: Vec<ExecutionUnit> = Vec::new();
    while entries.len() > 0
        invariant
            *bars == *old(bars),
            units@.len() + entries@.len() == queued.len(),
            forall|i: int|
                0 <= i < units@.len() ==> (#[trigger] units@[i]).runs(
                    queued[i],
                    old(bars).printer@,
                ),
            forall|i: int|
                0 <= i < entries@.len() ==> (#[trigger] groups_of(entries@)[i]) == queued[units@.len()
                    + i],
        decreases entries@.len(),
    {
        let ghost left = groups_of(entries@);
        let entry = entries.remove(0);
        let progress = bars.add_progress(entry.key.as_str(), None, None);
        proof {
            assert(left[0] == queued[units@.len() as int]);
            assert forall|i: int| 0 <= i < entries@.len() implies (#[trigger] groups_of(
                entries@,
            )[i]) == queued[units@.len() + 1 + i] by {
                assert(groups_of(entries@)[i] == left[i + 1]);
            }
        }
        units.push(ExecutionUnit { key: entry.key, progress, specs: entry.specs });
    }
    units
}

/// The queue of a batch: for each key the commands to run, in order. It is
/// used up by `execute`.
pub struct BatchRunner {
    entries: Vec<BatchEntry>,
}

impl View for BatchRunner {
    type V = Seq<Group>;

    closed spec fn view(&self) -> Seq<Group> {
        groups_of(self.entries@)
    }
}

impl BatchRunner {
    #[verifier::type_invariant]
    spec fn keys_are_distinct(self) -> bool {
        distinct_keys(groups_of(self.entries@))
    }

    /// An empty queue.
    pub fn new() -> (runner: BatchRunner)
        ensures
            runner@ == Seq::<Group>::empty(),
    {
        let runner = BatchRunner { entries: Vec::new() };
        proof {
            assert(runner@ =~= Seq::<Group>::empty());
        }
        runner
    }

    /// Number of keys in the queue. No key stands twice in it.
    pub fn len(&self) -> (count: usize)
        ensures
            count == self@.len(),
            distinct_keys(self@),
    {
        proof {
            use_type_invariant(self);
        }
        self.entries.len()
    }

    /// Whether nothing is queued.
    pub fn is_empty(&self) -> (empty: bool)
        ensures
            empty == (self@.len() == 0),
    {
        self.entries.len() == 0
    }

    /// Queues `specs` under `key`, behind what the key holds already. A key
    /// that is new joins the queue behind the others.
    pub fn add(&mut self, key: &str, specs: Vec<ExecuteLater>)
        ensures
            final(self)@ == added(old(self)@, key@, specs@),
    {
        proof {
            use_type_invariant(&*self);
        }
        let key = key.to_owned();
        let ghost given = specs@;
        let mut specs = specs;
        let mut entries: Vec<BatchEntry> = Vec::new();
        std::mem::swap(&mut entries, &mut self.entries);
        let ghost before = groups_of(entries@);
        let mut index: usize = 0;
        while index < entries.len()
            invariant
                index <= entries.len(),
                forall|j: int| 0 <= j < index ==> (#[trigger] entries@[j]).key@ != key@,
            ensures
                index <= entries.len(),
                forall|j: int| 0 <= j < index ==> (#[trigger] entries@[j]).key@ != key@,
                index < entries.len() ==> entries@[index as int].key@ == key@,
            decreases entries.len() - index,
        {
            if entries[index].key == key {
                break ;
            }
            index = index + 1;
        }
        if index < entries.len() {
            let mut entry = entries.remove(index);
            entry.specs.append(&mut specs);
            entries.insert(index, entry);
            proof {
                assert(before[index as int].key == key@);
                assert(has_key(before, key@));
                assert(groups_of(entries@) =~= added(before, key@, given)) by {
                    assert forall|i: int| 0 <= i < before.len() implies #[trigger] groups_of(
                        entries@,
                    )[i] == added(before, key@, given)[i] by {
                        if i != index {
                            assert(before[i].key != before[index as int].key);
                        }
                    }
                }
                assert(distinct_keys(groups_of(entries@))) by {
                    assert forall|i: int, j: int|
                        0 <= i < entries@.len() && 0 <= j < entries@.len() && i != j implies (
                    #[trigger] groups_of(entries@)[i]).key != (#[trigger] groups_of(
                        entries@,
                    )[j]).key by {
                        assert(before[i].key != before[j].key);
                    }
                }
            }
        } else {
            entries.push(BatchEntry { key, specs });
            proof {
                assert(!has_key(before, key@)) by {
                    if has_key(before, key@) {
                        let i = choose|i: int| 0 <= i < before.len() && #[trigger] before[i].key
                            == key@;
                        assert(old(self).entries@[i].key@ != key@);
                    }
                }
                assert(groups_of(entries@) =~= added(before, key@, given));
                assert(distinct_keys(groups_of(entries@))) by {
                    assert forall|i: int, j: int|
                        0 <= i < entries@.len() && 0 <= j < entries@.len() && i != j implies (
                    #[trigger] groups_of(entries@)[i]).key != (#[trigger] groups_of(
                        entries@,
                    )[j]).key by {
                        if i < before.len() && j < before.len() {
                            assert(before[i].key != before[j].key);
                        }
                    }
                }
            }
        }
        self.entries = entries;
    }

    /// Plans the run of everything that is queued and empties the queue.
    /// One section is opened on the group's sink, and in it one spinner is
    /// made for each key, named by the key. Returns one unit for each key,
    /// with the key's commands in the order they were queued; the caller
    /// runs the units side by side and the commands of each unit one after
    /// the other. The sink's indent is afterwards what it was before. An
    /// empty queue gives no unit and leaves the sink untouched, so a second
    /// call that follows a first with nothing added between does no work.
    pub fn execute(&mut self, group: &mut MultiProgress) -> (units: Vec<ExecutionUnit>)
        requires
            old(self)@.len() > 0 ==> old(group).printer@.indent + 2 <= usize::MAX,
        ensures
            final(self)@ == Seq::<Group>::empty(),
            units@.len() == old(self)@.len(),
            forall|i: int|
                0 <= i < units@.len() ==> (#[trigger] units@[i]).runs(
                    old(self)@[i],
                    old(group).printer@.in_section(batch_title()),
                ),
            final(group).printer@ == planned(old(group).printer@, old(self)@),
            *final(final(group).printer) == *final(old(group).printer),
    {
        let mut entries: Vec<BatchEntry> = Vec::new();
        std::mem::swap(&mut entries, &mut self.entries);
        proof {
            assert(self@ =~= Seq::<Group>::empty());
        }
        if entries.len() == 0 {
            return Vec::new();
        }
        let section = Section::new(&mut *group.printer, "Execute Batch");
        let mut bars = MultiProgress::new(&mut *section.printer);
        let units = plan_units(&mut bars, entries);
        section.close();
        units
    }
}

} // verus!
