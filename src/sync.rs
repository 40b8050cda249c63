//! Applying a plan to the resolver: the create, update and delete passes, one
//! row at a time, with the cache kept in step, and the restart decision.
//!
//! The reconciler decides; its caller talks to the resolver. The caller asks
//! for the next step, performs it, and reports how it went, until the
//! reconciler answers `Restart` or `Finish`. A failed call to the resolver
//! ends the run: nothing already done is undone.
use vstd::prelude::*;

use crate::cache::RecordCache;
use crate::classify::{classify, lemma_disabled_create_updates, row_views, Plan, PlanView};
use crate::endpoint::{record_for_zones, EndpointView};
use crate::record::{entry_of, key_of, EntryView, HostOverrideRecord, HostOverrideView, KeyView, RecordError};

verus! {

/// The three passes of a run.
#[derive(Clone, Copy, Debug, PartialEq, Eq, Structural)]
pub enum Operation {
    Create,
    Update,
    Delete,
}

impl Operation {
    /// The name of the pass, in lower case.
    pub fn name(&self) -> (r: &'static str)
        ensures
            r@ == match *self {
                Operation::Create => "create"@,
                Operation::Update => "update"@,
                Operation::Delete => "delete"@,
            },
    {
        match self {
            Operation::Create => "create",
            Operation::Update => "update",
            Operation::Delete => "delete",
        }
    }
}

/// What one pass did: how many rows it started on and how many it got to
/// the resolver.
#[derive(Clone, Copy, Debug, PartialEq, Eq, Structural)]
pub struct Output {
    pub operation: Operation,
    pub records_requested: u64,
    pub records_processed: u64,
}

impl Output {
    /// The report of a pass that has not started.
    pub fn new(op: Operation) -> (r: Output)
        ensures
            r == (Output { operation: op, records_requested: 0, records_processed: 0 }),
    {
        Output { operation: op, records_requested: 0, records_processed: 0 }
    }

    /// Whether the pass changed the resolver, so that it must be restarted.
    pub fn requires_restart(&self) -> (r: bool)
        ensures
            r == (self.records_processed > 0),
    {
        self.records_processed > 0
    }
}

/// Why a run stopped.
#[derive(Clone, Copy, Debug, PartialEq, Eq, Structural)]
pub enum SyncError {
    /// A row could not be read.
    InvalidRecordData(RecordError),
    /// An update or delete names a record that the cache does not hold.
    MissingCacheEntry,
}

/// What the caller is to do next.
#[derive(Debug)]
pub enum Step {
    /// Add the row to the resolver, then report `created` with the new identifier.
    Create(HostOverrideRecord),
    /// Overwrite the record with this identifier by the row, then report `updated`.
    Update(String, HostOverrideRecord),
    /// Delete the record with this identifier, then report `deleted`.
    Delete(String, HostOverrideRecord),
    /// Restart the resolver, at most once; the run is over.
    Restart,
    /// The run is over.
    Finish,
}

/// The view of a step.
pub enum StepView {
    Create(HostOverrideView),
    Update(Seq<char>, HostOverrideView),
    Delete(Seq<char>, HostOverrideView),
    Restart,
    Finish,
}

impl View for Step {
    type V = StepView;

    open spec fn view(&self) -> StepView {
        match self {
            Step::Create(r) => StepView::Create(r@),
            Step::Update(id, r) => StepView::Update(id@, r@),
            Step::Delete(id, r) => StepView::Delete(id@, r@),
            Step::Restart => StepView::Restart,
            Step::Finish => StepView::Finish,
        }
    }
}

/// The view of what `next` answers.
pub open spec fn step_result(r: Result<Step, SyncError>) -> Result<StepView, SyncError> {
    match r {
        Ok(s) => Ok(s@),
        Err(e) => Err(e),
    }
}

/// The state of a run: the rows to work on, each with its pass, where the
/// run stands, and the report of each pass.
pub struct ReconcilerView {
    pub tasks: Seq<(Operation, HostOverrideView)>,
    pub position: int,
    pub awaiting: bool,
    pub finished: bool,
    pub create: Output,
    pub update: Output,
    pub delete: Output,
}

/// The rows of a plan, each with its pass: creates, then updates, then deletes.
pub open spec fn plan_tasks(p: PlanView) -> Seq<(Operation, HostOverrideView)> {
    p.0.map_values(|r: HostOverrideView| (Operation::Create, r)) + p.1.map_values(
        |r: HostOverrideView| (Operation::Update, r),
    ) + p.2.map_values(|r: HostOverrideView| (Operation::Delete, r))
}

/// The row with another identifier.
pub open spec fn with_uuid(r: HostOverrideView, uuid: Seq<char>) -> HostOverrideView {
    HostOverrideView { uuid, ..r }
}

/// The cache after filing a row, or the error that stops it.
pub open spec fn inserted(records: Map<KeyView, EntryView>, r: HostOverrideView) -> Result<
    Map<KeyView, EntryView>,
    RecordError,
> {
    match key_of(r) {
        None => Err(RecordError::UnknownRecordType),
        Some(k) => match entry_of(r) {
            None => Err(RecordError::UnknownEnabledState),
            Some(e) => Ok(records.insert(k, e)),
        },
    }
}

/// The cache after dropping a row, or the error that stops it.
pub open spec fn removed(records: Map<KeyView, EntryView>, r: HostOverrideView) -> Result<
    Map<KeyView, EntryView>,
    RecordError,
> {
    match key_of(r) {
        None => Err(RecordError::UnknownRecordType),
        Some(k) => Ok(records.remove(k)),
    }
}

impl ReconcilerView {
    /// The state of a run that has not started.
    pub open spec fn start(p: PlanView) -> ReconcilerView {
        ReconcilerView {
            tasks: plan_tasks(p),
            position: 0,
            awaiting: false,
            finished: false,
            create: Output { operation: Operation::Create, records_requested: 0, records_processed: 0 },
            update: Output { operation: Operation::Update, records_requested: 0, records_processed: 0 },
            delete: Output { operation: Operation::Delete, records_requested: 0, records_processed: 0 },
        }
    }

    /// Whether some pass changed the resolver.
    pub open spec fn any_processed(self) -> bool {
        self.create.records_processed > 0 || self.update.records_processed > 0 || self.delete.records_processed
            > 0
    }

    /// The report of a pass.
    pub open spec fn output_of(self, op: Operation) -> Output {
        match op {
            Operation::Create => self.create,
            Operation::Update => self.update,
            Operation::Delete => self.delete,
        }
    }

    /// The state with another report for a pass.
    pub open spec fn with_output(self, op: Operation, o: Output) -> ReconcilerView {
        match op {
            Operation::Create => ReconcilerView { create: o, ..self },
            Operation::Update => ReconcilerView { update: o, ..self },
            Operation::Delete => ReconcilerView { delete: o, ..self },
        }
    }

    /// The pass and row that the run stands at.
    pub open spec fn current(self) -> (Operation, HostOverrideView) {
        self.tasks[self.position]
    }

    /// What `next` answers, and the state after it. Past the last row the run
    /// is over, with a restart when some pass changed the resolver; the
    /// answers after that are `Finish`. A create is handed out as it is. An
    /// update or delete needs the record's identifier from the cache, and
    /// fails without it.
    pub open spec fn after_next(self, records: Map<KeyView, EntryView>) -> (Result<StepView, SyncError>, ReconcilerView) {
        if self.finished {
            (Ok(StepView::Finish), self)
        } else if self.position >= self.tasks.len() {
            (
                Ok(
                    if self.any_processed() {
                        StepView::Restart
                    } else {
                        StepView::Finish
                    },
                ),
                ReconcilerView { finished: true, ..self },
            )
        } else {
            let (op, row) = self.current();
            let o = self.output_of(op);
            let started = Output { records_requested: (o.records_requested + 1) as u64, ..o };
            match op {
                Operation::Create => (
                    Ok(StepView::Create(row)),
                    ReconcilerView { awaiting: true, ..self.with_output(op, started) },
                ),
                _ => match key_of(row) {
                    None => (Err(SyncError::InvalidRecordData(RecordError::UnknownRecordType)), self),
                    Some(k) => if !records.contains_key(k) {
                        (Err(SyncError::MissingCacheEntry), self)
                    } else {
                        let handed = Output { records_processed: (o.records_processed + 1) as u64, ..started };
                        (
                            Ok(
                                if op == Operation::Update {
                                    StepView::Update(records[k].0, row)
                                } else {
                                    StepView::Delete(records[k].0, row)
                                },
                            ),
                            ReconcilerView { awaiting: true, ..self.with_output(op, handed) },
                        )
                    },
                },
            }
        }
    }

    /// The state after the resolver has done what the current step asked.
    pub open spec fn after_done(self) -> ReconcilerView {
        ReconcilerView { awaiting: false, position: self.position + 1, ..self }
    }
}

/// A run of a plan against the resolver.
pub struct Reconciler {
    tasks: Vec<(Operation, HostOverrideRecord)>,
    position: usize,
    awaiting: bool,
    finished: bool,
    create: Output,
    update: Output,
    delete: Output,
}

impl View for Reconciler {
    type V = ReconcilerView;

    closed spec fn view(&self) -> ReconcilerView {
        ReconcilerView {
            tasks: self.tasks@.map_values(|t: (Operation, HostOverrideRecord)| (t.0, t.1@)),
            position: self.position as int,
            awaiting: self.awaiting,
            finished: self.finished,
            create: self.create,
            update: self.update,
            delete: self.delete,
        }
    }
}

impl Reconciler {
    /// Whether the state is one that a run can reach: the counts add up to
    /// the rows started, and each report belongs to its pass.
    pub closed spec fn wf(&self) -> bool {
        &&& self.tasks@.len() <= usize::MAX
        &&& self.position <= self.tasks@.len()
        &&& self.awaiting ==> self.position < self.tasks@.len() && !self.finished
        &&& self.finished ==> self.position == self.tasks@.len()
        &&& self.create.records_requested + self.update.records_requested + self.delete.records_requested
            == self.position + (if self.awaiting {
            1int
        } else {
            0int
        })
        &&& self.create.records_processed + (if self.awaiting && self.tasks@[self.position as int].0
            == Operation::Create {
            1int
        } else {
            0int
        }) <= self.create.records_requested
        &&& self.update.records_processed <= self.update.records_requested
        &&& self.delete.records_processed <= self.delete.records_requested
        &&& self.create.operation == Operation::Create
        &&& self.update.operation == Operation::Update
        &&& self.delete.operation == Operation::Delete
    }

    /// A run of the plan that has not started.
    pub fn new(plan: Plan) -> (r: Reconciler)
        ensures
            r.wf(),
            r@ == ReconcilerView::start(plan@),
    {
        let ghost p = plan@;
        let Plan { creates, updates, deletes } = plan;
        let mut tasks: Vec<(Operation, HostOverrideRecord)> = Vec::new();
        Self::append_pass(&mut tasks, &creates, Operation::Create);
        Self::append_pass(&mut tasks, &updates, Operation::Update);
        Self::append_pass(&mut tasks, &deletes, Operation::Delete);
        let _count = tasks.len();
        let r = Reconciler {
            tasks,
            position: 0,
            awaiting: false,
            finished: false,
            create: Output::new(Operation::Create),
            update: Output::new(Operation::Update),
            delete: Output::new(Operation::Delete),
        };
        assert(r@.tasks =~= plan_tasks(p));
        r
    }

    /// Adds the rows of one pass to the end of the task list.
    fn append_pass(tasks: &mut Vec<(Operation, HostOverrideRecord)>, rows: &Vec<HostOverrideRecord>, op: Operation)
        ensures
            final(tasks)@.map_values(|t: (Operation, HostOverrideRecord)| (t.0, t.1@)) == old(tasks)@.map_values(
                |t: (Operation, HostOverrideRecord)| (t.0, t.1@),
            ) + row_views(rows@).map_values(|r: HostOverrideView| (op, r)),
    {
        let ghost start = tasks@.map_values(|t: (Operation, HostOverrideRecord)| (t.0, t.1@));
        let ghost all = row_views(rows@);
        let mut i: usize = 0;
        while i < rows.len()
            invariant
                i <= rows@.len(),
                all == row_views(rows@),
                tasks@.map_values(|t: (Operation, HostOverrideRecord)| (t.0, t.1@)) == start + all.take(
                    i as int,
                ).map_values(|r: HostOverrideView| (op, r)),
            decreases rows@.len() - i,
        {
            let row = rows[i].clone();
            let ghost previous = tasks@;
            tasks.push((op, row));
            proof {
                assert(tasks@ == previous.push((op, row)));
                assert(row@ == all[i as int]);
                assert(tasks@.map_values(|t: (Operation, HostOverrideRecord)| (t.0, t.1@)) =~= previous.map_values(
                    |t: (Operation, HostOverrideRecord)| (t.0, t.1@),
                ).push((op, row@)));
                assert(all.take(i + 1) =~= all.take(i as int).push(all[i as int]));
                assert(tasks@.map_values(|t: (Operation, HostOverrideRecord)| (t.0, t.1@)) =~= start + all.take(
                    i + 1,
                ).map_values(|r: HostOverrideView| (op, r)));
            }
            i += 1;
        }
        assert(all.take(rows@.len() as int) =~= all);
    }

    /// The reports of the three passes.
    pub fn outputs(&self) -> (r: Vec<Output>)
        ensures
            r@ == seq![self@.create, self@.update, self@.delete],
    {
        let mut r: Vec<Output> = Vec::new();
        r.push(self.create);
        r.push(self.update);
        r.push(self.delete);
        assert(r@ =~= seq![self@.create, self@.update, self@.delete]);
        r
    }

    /// Whether the run is over.
    pub fn is_finished(&self) -> (r: bool)
        ensures
            r == self@.finished,
    {
        self.finished
    }

    /// The next thing to do. For an update or a delete, the identifier comes
    /// from the cache.
    pub fn next<R: RecordCache>(&mut self, cache: &R) -> (r: Result<Step, SyncError>)
        requires
            old(self).wf(),
            !old(self)@.awaiting,
        ensures
            final(self).wf(),
            (step_result(r), final(self)@) == old(self)@.after_next(cache.records()),
    {
        if self.finished {
            return Ok(Step::Finish);
        }
        if self.position >= self.tasks.len() {
            self.finished = true;
            let any = self.create.requires_restart() || self.update.requires_restart()
                || self.delete.requires_restart();
            if any {
                return Ok(Step::Restart);
            } else {
                return Ok(Step::Finish);
            }
        }
        let op = self.tasks[self.position].0;
        let row = self.tasks[self.position].1.clone();
        proof {
            assert(self@.current() == (op, row@));
        }
        match op {
            Operation::Create => {
                self.create.records_requested = self.create.records_requested + 1;
                self.awaiting = true;
                Ok(Step::Create(row))
            },
            _ => {
                let entry = match cache.try_get_record(&row) {
                    Err(e) => {
                        return Err(SyncError::InvalidRecordData(e));
                    },
                    Ok(None) => {
                        return Err(SyncError::MissingCacheEntry);
                    },
                    Ok(Some(entry)) => entry,
                };
                self.awaiting = true;
                if op == Operation::Update {
                    self.update.records_requested = self.update.records_requested + 1;
                    self.update.records_processed = self.update.records_processed + 1;
                    Ok(Step::Update(entry.uuid, row))
                } else {
                    self.delete.records_requested = self.delete.records_requested + 1;
                    self.delete.records_processed = self.delete.records_processed + 1;
                    Ok(Step::Delete(entry.uuid, row))
                }
            },
        }
    }

    /// The resolver added the current row under the identifier `uuid`: the
    /// row, with that identifier, is filed in the cache.
    pub fn created<R: RecordCache>(&mut self, cache: &mut R, uuid: String) -> (r: Result<(), SyncError>)
        requires
            old(self).wf(),
            old(self)@.awaiting,
            old(self)@.current().0 == Operation::Create,
        ensures
            final(self).wf(),
            final(self)@ == ({
                let s = old(self)@;
                let handed = Output { records_processed: (s.create.records_processed + 1) as u64, ..s.create };
                s.with_output(Operation::Create, handed).after_done()
            }),
            match inserted(old(cache).records(), with_uuid(old(self)@.current().1, uuid@)) {
                Ok(m) => r == Ok::<(), SyncError>(()) && final(cache).records() == m,
                Err(e) => r == Err::<(), SyncError>(SyncError::InvalidRecordData(e)) && final(cache).records()
                    == old(cache).records(),
            },
    {
        let mut row = self.tasks[self.position].1.clone();
        row.uuid = uuid;
        self.create.records_processed = self.create.records_processed + 1;
        self.awaiting = false;
        self.position = self.position + 1;
        match cache.try_insert_record(&row) {
            Ok(_) => Ok(()),
            Err(e) => Err(SyncError::InvalidRecordData(e)),
        }
    }

    /// The resolver overwrote the record of the current row.
    pub fn updated(&mut self)
        requires
            old(self).wf(),
            old(self)@.awaiting,
            old(self)@.current().0 == Operation::Update,
        ensures
            final(self).wf(),
            final(self)@ == old(self)@.after_done(),
    {
        self.awaiting = false;
        self.position = self.position + 1;
    }

    /// The resolver deleted the record of the current row: the cache drops it.
    pub fn deleted<R: RecordCache>(&mut self, cache: &mut R) -> (r: Result<(), SyncError>)
        requires
            old(self).wf(),
            old(self)@.awaiting,
            old(self)@.current().0 == Operation::Delete,
        ensures
            final(self).wf(),
            final(self)@ == old(self)@.after_done(),
            match removed(old(cache).records(), old(self)@.current().1) {
                Ok(m) => r == Ok::<(), SyncError>(()) && final(cache).records() == m,
                Err(e) => r == Err::<(), SyncError>(SyncError::InvalidRecordData(e)) && final(cache).records()
                    == old(cache).records(),
            },
    {
        let row = &self.tasks[self.position].1;
        let r = match cache.try_remove_record(row) {
            Ok(()) => Ok(()),
            Err(e) => Err(SyncError::InvalidRecordData(e)),
        };
        self.awaiting = false;
        self.position = self.position + 1;
        r
    }
}

/// A create whose key the cache holds as disabled becomes an update that
/// carries the cached identifier: the run's first step overwrites the
/// existing record, and nothing is created.
pub proof fn lemma_disabled_create_reuses_identifier(
    ep: EndpointView,
    zones: Seq<Seq<char>>,
    records: Map<KeyView, EntryView>,
)
    requires
        record_for_zones(ep, zones) is Some,
        key_of(record_for_zones(ep, zones)->Some_0) is Some,
        records.contains_key(key_of(record_for_zones(ep, zones)->Some_0)->Some_0),
        !records[key_of(record_for_zones(ep, zones)->Some_0)->Some_0].1,
    ensures
        ({
            let row = record_for_zones(ep, zones)->Some_0;
            let k = key_of(row)->Some_0;
            let plan = classify(seq![ep], Seq::empty(), Seq::empty(), zones, records)->Ok_0;
            let start = ReconcilerView::start(plan);
            &&& plan.0.len() == 0
            &&& start.tasks == seq![(Operation::Update, row)]
            &&& start.after_next(records).0 == Ok::<StepView, SyncError>(StepView::Update(records[k].0, row))
        }),
{
    lemma_disabled_create_updates(ep, zones, records);
    let row = record_for_zones(ep, zones)->Some_0;
    let plan = classify(seq![ep], Seq::empty(), Seq::empty(), zones, records)->Ok_0;
    assert(plan_tasks(plan) =~= seq![(Operation::Update, row)]);
}

} // verus!
