//! Planning a batch of downloads under a bound on those in flight.
//!
//! The scheduler decides; the caller fetches and writes. Each item is
//! started once, in the order of the list, and at most fifty are in flight
//! at a time. An item's failure is recorded for that item alone: the
//! scheduler goes on until every item is settled, whatever each one came
//! to. Nothing is retried.

use vstd::prelude::*;

verus! {

/// The most downloads that are in flight at one time.
pub const MAX_IN_FLIGHT: usize = 50;

/// What became of one download.
#[derive(Debug, Clone, Copy, PartialEq, Eq, Structural)]
pub enum ItemOutcome {
    /// The asset was fetched and its file written.
    Saved,
    /// The asset could not be fetched.
    FetchFailed,
    /// The asset was fetched, but its file could not be written.
    WriteFailed,
}

/// Where one item of the batch stands.
#[derive(Debug, Clone, Copy, PartialEq, Eq, Structural)]
pub enum ItemState {
    /// Not started yet.
    Waiting,
    /// Started and not settled.
    InFlight,
    /// Settled, with its outcome.
    Settled(ItemOutcome),
}

/// What the scheduler asks of its caller.
#[derive(Debug, Clone, Copy, PartialEq, Eq, Structural)]
pub enum Dispatch {
    /// Start the download of the item with this index.
    Start(usize),
    /// Start nothing now: report a settled download first.
    Wait,
    /// Every item is settled.
    Done,
}

/// The count of a batch: files written, and downloads that failed.
#[derive(Debug, Clone, Copy, PartialEq, Eq, Structural)]
pub struct Report {
    pub saved: usize,
    pub failed: usize,
}

/// What a download came to, from its two steps. A fetch that failed leaves
/// nothing to write. A directory that could not be made shows as a failed
/// write.
pub open spec fn outcome_of_steps(fetched: bool, written: bool) -> ItemOutcome {
    if !fetched {
        ItemOutcome::FetchFailed
    } else if !written {
        ItemOutcome::WriteFailed
    } else {
        ItemOutcome::Saved
    }
}

/// Names the outcome of a download from the results of its steps.
pub fn item_outcome(fetched: bool, written: bool) -> (outcome: ItemOutcome)
    ensures
        outcome == outcome_of_steps(fetched, written),
{
    if !fetched {
        ItemOutcome::FetchFailed
    } else if !written {
        ItemOutcome::WriteFailed
    } else {
        ItemOutcome::Saved
    }
}

/// The kinds of item that the scheduler counts.
pub enum Kind {
    InFlight,
    Saved,
    Failed,
}

/// Whether an item is of a kind.
pub open spec fn is_kind(state: ItemState, kind: Kind) -> bool {
    match kind {
        Kind::InFlight => state is InFlight,
        Kind::Saved => state == ItemState::Settled(ItemOutcome::Saved),
        Kind::Failed => state is Settled && state != ItemState::Settled(ItemOutcome::Saved),
    }
}

/// How many items are of a kind.
pub open spec fn count(items: Seq<ItemState>, kind: Kind) -> nat
    decreases items.len(),
{
    if items.len() == 0 {
        0
    } else {
        count(items.drop_last(), kind) + if is_kind(items.last(), kind) {
            1nat
        } else {
            0nat
        }
    }
}

/// How many items have left the waiting state: the index of the item that
/// is started next.
pub open spec fn started(items: Seq<ItemState>) -> nat
    decreases items.len(),
{
    if items.len() == 0 {
        0
    } else {
        started(items.drop_last()) + if items.last() is Waiting {
            0nat
        } else {
            1nat
        }
    }
}

/// Whether the waiting items are exactly those behind the started ones.
pub open spec fn in_order(items: Seq<ItemState>) -> bool {
    forall|i: int| 0 <= i < items.len() ==> ((#[trigger] items[i]) is Waiting <==> i >= started(items))
}

/// What the scheduler asks for in a state: to start the next waiting item
/// while fewer than the bound are in flight; else to wait while any is in
/// flight; else nothing more.
pub open spec fn dispatch_of(items: Seq<ItemState>) -> Dispatch {
    if started(items) < items.len() && count(items, Kind::InFlight) < MAX_IN_FLIGHT {
        Dispatch::Start(started(items) as usize)
    } else if count(items, Kind::InFlight) > 0 {
        Dispatch::Wait
    } else {
        Dispatch::Done
    }
}

/// The count of a batch in a state.
pub open spec fn report_of(items: Seq<ItemState>) -> Report {
    Report {
        saved: count(items, Kind::Saved) as usize,
        failed: count(items, Kind::Failed) as usize,
    }
}

/// No kind counts more items than there are.
pub proof fn count_bounded(items: Seq<ItemState>, kind: Kind)
    ensures
        count(items, kind) <= items.len(),
        started(items) <= items.len(),
    decreases items.len(),
{
    if items.len() > 0 {
        count_bounded(items.drop_last(), kind);
    }
}

/// Changing one item changes each count by what that item gives and takes.
pub proof fn count_update(items: Seq<ItemState>, index: int, state: ItemState, kind: Kind)
    requires
        0 <= index < items.len(),
    ensures
        count(items.update(index, state), kind) + (if is_kind(items[index], kind) {
            1nat
        } else {
            0nat
        }) == count(items, kind) + (if is_kind(state, kind) {
            1nat
        } else {
            0nat
        }),
        started(items.update(index, state)) + (if items[index] is Waiting {
            0nat
        } else {
            1nat
        }) == started(items) + (if state is Waiting {
            0nat
        } else {
            1nat
        }),
    decreases items.len(),
{
    let changed = items.update(index, state);
    if index == items.len() - 1 {
        assert(changed.drop_last() =~= items.drop_last());
    } else {
        count_update(items.drop_last(), index, state, kind);
        assert(changed.drop_last() =~= items.drop_last().update(index, state));
    }
}

/// A batch of which nothing is started counts nothing.
pub proof fn fresh_batch_counts(total: nat, kind: Kind)
    ensures
        count(Seq::new(total, |i: int| ItemState::Waiting), kind) == 0,
        started(Seq::new(total, |i: int| ItemState::Waiting)) == 0,
    decreases total,
{
    if total > 0 {
        fresh_batch_counts((total - 1) as nat, kind);
        assert(Seq::new(total, |i: int| ItemState::Waiting).drop_last() =~= Seq::new(
            (total - 1) as nat,
            |i: int| ItemState::Waiting,
        ));
    }
}

/// A batch of downloads and where each of them stands.
pub struct DownloadScheduler {
    states: Vec<ItemState>,
    next: usize,
    in_flight: usize,
    saved: usize,
    failed: usize,
}

impl View for DownloadScheduler {
    type V = Seq<ItemState>;

    closed spec fn view(&self) -> Seq<ItemState> {
        self.states@
    }
}

impl DownloadScheduler {
    /// The scheduler's invariant: items are started in order, and never
    /// more than the bound are in flight.
    pub closed spec fn well_formed(&self) -> bool {
        &&& in_order(self.states@)
        &&& self.next == started(self.states@)
        &&& self.in_flight == count(self.states@, Kind::InFlight)
        &&& self.saved == count(self.states@, Kind::Saved)
        &&& self.failed == count(self.states@, Kind::Failed)
        &&& self.in_flight <= MAX_IN_FLIGHT
    }

    /// The bound holds in every state that the scheduler reaches.
    pub proof fn bound_holds(&self)
        requires
            self.well_formed(),
        ensures
            count(self@, Kind::InFlight) <= MAX_IN_FLIGHT,
            in_order(self@),
    {
    }

    /// A scheduler for a batch of `total` items, none of them started.
    pub fn new(total: usize) -> (scheduler: DownloadScheduler)
        ensures
            scheduler.well_formed(),
            scheduler@ == Seq::new(total as nat, |i: int| ItemState::Waiting),
    {
        let mut states: Vec<ItemState> = Vec::new();
        while states.len() < total
            invariant
                states@.len() <= total,
                states@ == Seq::new(states@.len(), |i: int| ItemState::Waiting),
                started(states@) == 0,
                count(states@, Kind::InFlight) == 0,
                count(states@, Kind::Saved) == 0,
                count(states@, Kind::Failed) == 0,
            decreases total - states@.len(),
        {
            let ghost before = states@;
            states.push(ItemState::Waiting);
            assert(states@.drop_last() =~= before);
        }
        DownloadScheduler { states, next: 0, in_flight: 0, saved: 0, failed: 0 }
    }

    /// The number of items in the batch.
    pub fn total(&self) -> (total: usize)
        ensures
            total == self@.len(),
    {
        self.states.len()
    }

    /// The number of downloads in flight.
    pub fn in_flight(&self) -> (running: usize)
        requires
            self.well_formed(),
        ensures
            running == count(self@, Kind::InFlight),
            running <= MAX_IN_FLIGHT,
    {
        self.in_flight
    }

    /// Says what to do next, and marks the item as in flight where the
    /// answer is to start one.
    pub fn dispatch(&mut self) -> (action: Dispatch)
        requires
            old(self).well_formed(),
        ensures
            final(self).well_formed(),
            action == dispatch_of(old(self)@),
            final(self)@ == match action {
                Dispatch::Start(index) => old(self)@.update(index as int, ItemState::InFlight),
                _ => old(self)@,
            },
    {
        let ghost before = self.states@;
        proof {
            count_bounded(before, Kind::InFlight);
        }
        if self.next < self.states.len() && self.in_flight < MAX_IN_FLIGHT {
            let index = self.next;
            proof {
                count_update(before, index as int, ItemState::InFlight, Kind::InFlight);
                count_update(before, index as int, ItemState::InFlight, Kind::Saved);
                count_update(before, index as int, ItemState::InFlight, Kind::Failed);
            }
            self.states.set(index, ItemState::InFlight);
            self.next = index + 1;
            self.in_flight = self.in_flight + 1;
            Dispatch::Start(index)
        } else if self.in_flight > 0 {
            Dispatch::Wait
        } else {
            Dispatch::Done
        }
    }

    /// Records what the download of the item `index` came to. Only an item
    /// in flight can be settled: for any other index nothing changes and
    /// `false` comes back.
    pub fn complete(&mut self, index: usize, outcome: ItemOutcome) -> (settled: bool)
        requires
            old(self).well_formed(),
        ensures
            final(self).well_formed(),
            settled == (index < old(self)@.len() && old(self)@[index as int] is InFlight),
            final(self)@ == if settled {
                old(self)@.update(index as int, ItemState::Settled(outcome))
            } else {
                old(self)@
            },
    {
        if index >= self.states.len() {
            return false;
        }
        match self.states[index] {
            ItemState::InFlight => {},
            _ => {
                return false;
            },
        }
        let ghost before = self.states@;
        let state = ItemState::Settled(outcome);
        proof {
            count_update(before, index as int, state, Kind::InFlight);
            count_update(before, index as int, state, Kind::Saved);
            count_update(before, index as int, state, Kind::Failed);
            count_bounded(before.update(index as int, state), Kind::Saved);
            count_bounded(before.update(index as int, state), Kind::Failed);
        }
        self.states.set(index, state);
        self.in_flight = self.in_flight - 1;
        match outcome {
            ItemOutcome::Saved => {
                self.saved = self.saved + 1;
            },
            _ => {
                self.failed = self.failed + 1;
            },
        }
        true
    }

    /// Where the item `index` stands.
    pub fn state(&self, index: usize) -> (state: ItemState)
        requires
            index < self@.len(),
        ensures
            state == self@[index as int],
    {
        self.states[index]
    }

    /// The count so far: files written, and downloads that failed.
    pub fn report(&self) -> (report: Report)
        requires
            self.well_formed(),
        ensures
            report == report_of(self@),
    {
        Report { saved: self.saved, failed: self.failed }
    }
}

/// The states of a batch in which every item is settled, each with its
/// outcome.
pub open spec fn settled(outcomes: Seq<ItemOutcome>) -> Seq<ItemState> {
    Seq::new(outcomes.len(), |i: int| ItemState::Settled(outcomes[i]))
}

/// Runs a whole batch through a scheduler, given what each download comes
/// to: items are started as the scheduler asks, and whenever it asks to
/// wait, the oldest download in flight settles. Every item is settled at
/// the end, whatever the others came to, and the count says so.
pub fn run_batch(outcomes: &Vec<ItemOutcome>) -> (report: Report)
    ensures
        report == report_of(settled(outcomes@)),
{
    let total = outcomes.len();
    let mut scheduler = DownloadScheduler::new(total);
    let mut done: usize = 0;
    proof {
        fresh_batch_counts(total as nat, Kind::InFlight);
    }
    loop
        invariant
            total == outcomes@.len(),
            scheduler.well_formed(),
            scheduler@.len() == total,
            done <= started(scheduler@) <= total,
            count(scheduler@, Kind::InFlight) == started(scheduler@) - done,
            forall|i: int| 0 <= i < done ==> scheduler@[i] == ItemState::Settled(outcomes@[i]),
            forall|i: int| done <= i < started(scheduler@) ==> scheduler@[i] is InFlight,
        decreases 2 * total - started(scheduler@) - done,
    {
        let ghost before = scheduler@;
        match scheduler.dispatch() {
            Dispatch::Start(index) => {
                proof {
                    count_update(before, index as int, ItemState::InFlight, Kind::InFlight);
                }
            },
            Dispatch::Wait => {
                let outcome = outcomes[done];
                proof {
                    count_update(before, done as int, ItemState::Settled(outcome), Kind::InFlight);
                }
                scheduler.complete(done, outcome);
                done = done + 1;
            },
            Dispatch::Done => {
                assert(scheduler@ =~= settled(outcomes@));
                return scheduler.report();
            },
        }
    }
}

/// A batch in which every download succeeds counts a file for each item
/// and no failure.
pub proof fn all_saved_counts(outcomes: Seq<ItemOutcome>)
    requires
        forall|i: int| 0 <= i < outcomes.len() ==> outcomes[i] == ItemOutcome::Saved,
    ensures
        count(settled(outcomes), Kind::Saved) == outcomes.len(),
        count(settled(outcomes), Kind::Failed) == 0,
    decreases outcomes.len(),
{
    if outcomes.len() > 0 {
        all_saved_counts(outcomes.drop_last());
        assert(settled(outcomes).drop_last() =~= settled(outcomes.drop_last()));
    }
}

/// One failed download costs one file and no more.
///
/// Where the download of index `bad` fails, in either step, and every
/// other download of the batch succeeds, the batch counts a file for each
/// of the other items and exactly one failure.
pub proof fn one_failure_spares_the_rest(outcomes: Seq<ItemOutcome>, bad: int)
    requires
        0 <= bad < outcomes.len() <= usize::MAX,
        outcomes[bad] != ItemOutcome::Saved,
        forall|i: int| 0 <= i < outcomes.len() && i != bad ==> outcomes[i] == ItemOutcome::Saved,
    ensures
        report_of(settled(outcomes)) == (Report {
            saved: (outcomes.len() - 1) as usize,
            failed: 1,
        }),
{
    let mended = outcomes.update(bad, ItemOutcome::Saved);
    all_saved_counts(mended);
    let state = ItemState::Settled(outcomes[bad]);
    count_update(settled(mended), bad, state, Kind::Saved);
    count_update(settled(mended), bad, state, Kind::Failed);
    assert(settled(mended).update(bad, state) =~= settled(outcomes));
}

} // verus!
