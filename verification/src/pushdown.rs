//! Collector-side acceptance of pushed detection tasks.
//!
//! A pushdown plan names a table, a conjunction of predicates and a projection. It is
//! validated against the schema the collector advertised, and the accepted tasks are
//! tracked until their time to live runs out. A task is accepted whole or refused whole,
//! and expiry is read through an explicit `now` (Unix milliseconds).

use crate::strmap::StrMap;
use crate::text::str_eq;
use crate::trigger_manager::byte_len;
use vstd::prelude::*;

verus! {

/// Comparison operations a column can advertise.
#[derive(Debug, Clone, Copy, PartialEq, Eq, Hash, Structural)]
pub enum DescriptorOp {
    /// Equal
    Eq,
    /// Not equal
    Ne,
    /// Less than
    Lt,
    /// Less than or equal
    Le,
    /// Greater than
    Gt,
    /// Greater than or equal
    Ge,
    /// Membership in a list
    In,
    /// SQL `LIKE` pattern
    Like,
    /// Regular expression
    Regexp,
}

/// The operation of a pushed predicate as it arrives (unset or unknown operations read
/// as `Unspecified`).
#[derive(Debug, Clone, Copy, PartialEq, Eq, Hash, Structural)]
pub enum PredicateOp {
    /// No operation, or one this build does not know
    Unspecified,
    /// Equal
    Eq,
    /// Not equal
    Ne,
    /// Less than
    Lt,
    /// Less than or equal
    Le,
    /// Greater than
    Gt,
    /// Greater than or equal
    Ge,
    /// Membership in a list
    In,
    /// SQL `LIKE` pattern
    Like,
    /// Regular expression
    Regexp,
}

/// A column the collector advertises.
#[derive(Debug)]
pub struct ColumnDescriptor {
    /// Column name
    pub name: String,
    /// Operations the column supports
    pub supported_ops: Vec<DescriptorOp>,
}

/// A table the collector advertises.
#[derive(Debug)]
pub struct TableDescriptor {
    /// Table name
    pub name: String,
    /// Columns of the table
    pub columns: Vec<ColumnDescriptor>,
}

/// The schema a collector advertises.
#[derive(Debug)]
pub struct SchemaDescriptor {
    /// Tables served
    pub tables: Vec<TableDescriptor>,
}

/// One pushed predicate.
#[derive(Debug)]
pub struct Predicate {
    /// Column read
    pub column: String,
    /// Operation
    pub op: PredicateOp,
    /// Literal values
    pub values: Vec<String>,
}

/// A pushed plan.
#[derive(Debug)]
pub struct PushdownPlan {
    /// Table read
    pub table: String,
    /// Conjunction of predicates
    pub predicates: Vec<Predicate>,
    /// Columns returned
    pub projection: Vec<String>,
    /// Time to live in milliseconds
    pub ttl_ms: u64,
}

/// A pushed detection task.
#[derive(Debug)]
pub struct DetectionTask {
    /// Task identifier
    pub task_id: String,
    /// The plan, if any
    pub pushdown_plan: Option<PushdownPlan>,
}

/// The fixed bounds a collector applies to pushed tasks.
#[derive(Debug, Clone, Copy, PartialEq, Eq)]
pub struct PushdownBounds {
    /// Longest identifier accepted, in bytes
    pub max_identifier_length: usize,
    /// Longest time to live accepted, in milliseconds
    pub max_ttl_ms: u64,
}

/// Why a collector refused a pushed detection task.
#[derive(Debug, Clone, PartialEq, Eq)]
pub enum PushdownRejection {
    /// The event source does not handle pushdown tasks at all
    PushdownUnsupported { event_source: String },
    /// The task carried no pushdown plan
    MissingPlan,
    /// The task carried no identifier
    MissingTaskId,
    /// An identifier exceeded the length bound (its length in bytes)
    IdentifierTooLong { length: usize },
    /// The plan named a table this collector does not serve
    UnknownTable { table: String },
    /// The plan named a column the table does not declare
    UnknownColumn { table: String, column: String },
    /// The predicate's operation was unset or unknown
    UnspecifiedOperation { column: String },
    /// The column did not advertise the predicate's operation
    UnsupportedOperation { column: String, op: DescriptorOp },
    /// The predicate carried the wrong number of values for its operation
    InvalidArity { column: String, op: DescriptorOp, values: usize },
    /// A literal's kind did not match the column's declared type
    LiteralTypeMismatch { column: String, column_type: String, literal_kind: String },
    /// A NULL literal was pushed against a column declared NOT NULL
    NullLiteralOnNonNullable { column: String },
    /// A pattern could not be compiled within the collector's bounds (the reason)
    PatternRejected { column: String, rejection: String },
    /// The time to live was zero, beyond the ceiling, or past the end of time
    InvalidTtl { ttl_ms: u64 },
}

/// Lifecycle state of a task the collector was asked to evaluate.
#[derive(Debug, Clone, Copy, PartialEq, Eq, Structural)]
pub enum TaskStatus {
    /// No such task was ever accepted, or it was refused
    Unknown,
    /// Accepted and within its time to live
    Active,
    /// Accepted, but its time to live elapsed without renewal
    Expired,
}

/// The descriptor operation of a wire operation (`None` for an unset or unknown one).
pub open spec fn descriptor_op_spec(op: PredicateOp) -> Option<DescriptorOp> {
    match op {
        PredicateOp::Eq => Some(DescriptorOp::Eq),
        PredicateOp::Ne => Some(DescriptorOp::Ne),
        PredicateOp::Lt => Some(DescriptorOp::Lt),
        PredicateOp::Le => Some(DescriptorOp::Le),
        PredicateOp::Gt => Some(DescriptorOp::Gt),
        PredicateOp::Ge => Some(DescriptorOp::Ge),
        PredicateOp::In => Some(DescriptorOp::In),
        PredicateOp::Like => Some(DescriptorOp::Like),
        PredicateOp::Regexp => Some(DescriptorOp::Regexp),
        PredicateOp::Unspecified => None,
    }
}

/// The descriptor operation of a wire operation.
pub fn descriptor_op(op: PredicateOp) -> (r: Option<DescriptorOp>)
    ensures
        r == descriptor_op_spec(op),
{
    match op {
        PredicateOp::Eq => Some(DescriptorOp::Eq),
        PredicateOp::Ne => Some(DescriptorOp::Ne),
        PredicateOp::Lt => Some(DescriptorOp::Lt),
        PredicateOp::Le => Some(DescriptorOp::Le),
        PredicateOp::Gt => Some(DescriptorOp::Gt),
        PredicateOp::Ge => Some(DescriptorOp::Ge),
        PredicateOp::In => Some(DescriptorOp::In),
        PredicateOp::Like => Some(DescriptorOp::Like),
        PredicateOp::Regexp => Some(DescriptorOp::Regexp),
        PredicateOp::Unspecified => None,
    }
}

/// The error for an identifier longer than the bound, if it is.
pub open spec fn identifier_error(id: Seq<char>, b: PushdownBounds) -> Option<PushdownRejection> {
    if byte_len(id) > b.max_identifier_length {
        Some(PushdownRejection::IdentifierTooLong { length: byte_len(id) as usize })
    } else {
        None
    }
}

/// Rejects an identifier longer than the bound.
pub fn check_identifier(id: &str, b: PushdownBounds) -> (r: Result<(), PushdownRejection>)
    ensures
        identifier_error(id@, b) matches Some(e) ==> r == Err::<(), PushdownRejection>(e),
        identifier_error(id@, b) is None ==> r is Ok,
{
    let n = id.len();
    if n > b.max_identifier_length {
        return Err(PushdownRejection::IdentifierTooLong { length: n });
    }
    Ok(())
}

/// The position of the first column of `cols` named `name`, if any.
pub open spec fn column_pos(cols: Seq<ColumnDescriptor>, name: Seq<char>) -> Option<int>
    decreases cols.len(),
{
    if cols.len() == 0 {
        None
    } else if cols[0].name@ == name {
        Some(0)
    } else {
        match column_pos(cols.drop_first(), name) {
            Some(i) => Some(i + 1),
            None => None,
        }
    }
}

/// The position of the first table of `ts` named `name`, if any.
pub open spec fn table_pos(ts: Seq<TableDescriptor>, name: Seq<char>) -> Option<int>
    decreases ts.len(),
{
    if ts.len() == 0 {
        None
    } else if ts[0].name@ == name {
        Some(0)
    } else {
        match table_pos(ts.drop_first(), name) {
            Some(i) => Some(i + 1),
            None => None,
        }
    }
}

proof fn lemma_column_pos(cols: Seq<ColumnDescriptor>, name: Seq<char>)
    ensures
        column_pos(cols, name) matches Some(i) ==> 0 <= i < cols.len() && cols[i].name@ == name
            && forall|j: int| 0 <= j < i ==> (#[trigger] cols[j]).name@ != name,
        column_pos(cols, name) is None ==> forall|j: int| 0 <= j < cols.len() ==> (#[trigger] cols[j]).name@ != name,
    decreases cols.len(),
{
    if cols.len() > 0 {
        lemma_column_pos(cols.drop_first(), name);
        assert forall|j: int| 1 <= j < cols.len() implies (#[trigger] cols[j]).name@ == cols.drop_first()[j - 1].name@ by {}
    }
}

proof fn lemma_table_pos(ts: Seq<TableDescriptor>, name: Seq<char>)
    ensures
        table_pos(ts, name) matches Some(i) ==> 0 <= i < ts.len() && ts[i].name@ == name
            && forall|j: int| 0 <= j < i ==> (#[trigger] ts[j]).name@ != name,
        table_pos(ts, name) is None ==> forall|j: int| 0 <= j < ts.len() ==> (#[trigger] ts[j]).name@ != name,
    decreases ts.len(),
{
    if ts.len() > 0 {
        lemma_table_pos(ts.drop_first(), name);
        assert forall|j: int| 1 <= j < ts.len() implies (#[trigger] ts[j]).name@ == ts.drop_first()[j - 1].name@ by {}
    }
}

/// Looks up a column of `table`.
fn find_column(table: &TableDescriptor, column: &str) -> (r: Option<usize>)
    ensures
        r matches Some(i) ==> column_pos(table.columns@, column@) == Some(i as int) && i < table.columns@.len(),
        r is None ==> column_pos(table.columns@, column@) is None,
{
    proof {
        lemma_column_pos(table.columns@, column@);
    }
    let mut i: usize = 0;
    while i < table.columns.len()
        invariant
            i <= table.columns@.len(),
            forall|j: int| 0 <= j < i ==> (#[trigger] table.columns@[j]).name@ != column@,
            column_pos(table.columns@, column@) matches Some(p) ==> 0 <= p < table.columns@.len() && table.columns@[p].name@ == column@
                && forall|j: int| 0 <= j < p ==> (#[trigger] table.columns@[j]).name@ != column@,
            column_pos(table.columns@, column@) is None ==> forall|j: int| 0 <= j < table.columns@.len() ==> (#[trigger] table.columns@[j]).name@ != column@,
        decreases table.columns@.len() - i,
    {
        if str_eq(table.columns[i].name.as_str(), column) {
            return Some(i);
        }
        i = i + 1;
    }
    None
}

/// The error of one predicate against `table`, if any: an over-long column name, an
/// unknown column, an unset operation, an operation the column does not advertise, or a
/// wrong number of values (at least one for `IN`, exactly one otherwise).
pub open spec fn predicate_error(table: TableDescriptor, p: Predicate, b: PushdownBounds) -> Option<PushdownRejection> {
    if identifier_error(p.column@, b) is Some {
        identifier_error(p.column@, b)
    } else if column_pos(table.columns@, p.column@) is None {
        Some(PushdownRejection::UnknownColumn { table: table.name, column: p.column })
    } else if descriptor_op_spec(p.op) is None {
        Some(PushdownRejection::UnspecifiedOperation { column: p.column })
    } else if !table.columns@[column_pos(table.columns@, p.column@)->0].supported_ops@.contains(descriptor_op_spec(p.op)->0) {
        Some(PushdownRejection::UnsupportedOperation { column: p.column, op: descriptor_op_spec(p.op)->0 })
    } else if !(if descriptor_op_spec(p.op)->0 == DescriptorOp::In {
        p.values@.len() >= 1
    } else {
        p.values@.len() == 1
    }) {
        Some(PushdownRejection::InvalidArity { column: p.column, op: descriptor_op_spec(p.op)->0, values: p.values@.len() as usize })
    } else {
        None
    }
}

/// The first error among predicates `ps`, in order.
pub open spec fn predicates_error(table: TableDescriptor, ps: Seq<Predicate>, b: PushdownBounds) -> Option<PushdownRejection>
    decreases ps.len(),
{
    if ps.len() == 0 {
        None
    } else if predicate_error(table, ps[0], b) is Some {
        predicate_error(table, ps[0], b)
    } else {
        predicates_error(table, ps.drop_first(), b)
    }
}

/// The error of one projected column, if any: an over-long or unknown name.
pub open spec fn projection_column_error(table: TableDescriptor, c: String, b: PushdownBounds) -> Option<PushdownRejection> {
    if identifier_error(c@, b) is Some {
        identifier_error(c@, b)
    } else if column_pos(table.columns@, c@) is None {
        Some(PushdownRejection::UnknownColumn { table: table.name, column: c })
    } else {
        None
    }
}

/// The first error among projected columns `cs`, in order.
pub open spec fn projection_error(table: TableDescriptor, cs: Seq<String>, b: PushdownBounds) -> Option<PushdownRejection>
    decreases cs.len(),
{
    if cs.len() == 0 {
        None
    } else if projection_column_error(table, cs[0], b) is Some {
        projection_column_error(table, cs[0], b)
    } else {
        projection_error(table, cs.drop_first(), b)
    }
}

/// The error of a plan against a schema, if any: the table name is checked, then each
/// predicate, then each projected column.
pub open spec fn plan_error(d: SchemaDescriptor, plan: PushdownPlan, b: PushdownBounds) -> Option<PushdownRejection> {
    if identifier_error(plan.table@, b) is Some {
        identifier_error(plan.table@, b)
    } else if table_pos(d.tables@, plan.table@) is None {
        Some(PushdownRejection::UnknownTable { table: plan.table })
    } else {
        let t = d.tables@[table_pos(d.tables@, plan.table@)->0];
        if predicates_error(t, plan.predicates@, b) is Some {
            predicates_error(t, plan.predicates@, b)
        } else {
            projection_error(t, plan.projection@, b)
        }
    }
}

fn op_in(ops: &Vec<DescriptorOp>, op: DescriptorOp) -> (r: bool)
    ensures
        r == ops@.contains(op),
{
    let mut i: usize = 0;
    while i < ops.len()
        invariant
            i <= ops@.len(),
            forall|j: int| 0 <= j < i ==> ops@[j] != op,
        decreases ops@.len() - i,
    {
        if ops[i] == op {
            assert(ops@[i as int] == op);
            return true;
        }
        i = i + 1;
    }
    false
}

/// Validates one predicate against `table`.
pub fn validate_predicate(table: &TableDescriptor, p: &Predicate, b: PushdownBounds) -> (r: Result<(), PushdownRejection>)
    ensures
        predicate_error(*table, *p, b) matches Some(e) ==> r == Err::<(), PushdownRejection>(e),
        predicate_error(*table, *p, b) is None ==> r is Ok,
{
    match check_identifier(p.column.as_str(), b) {
        Err(e) => {
            return Err(e);
        },
        Ok(()) => {},
    }
    let ci = match find_column(table, p.column.as_str()) {
        None => {
            return Err(PushdownRejection::UnknownColumn { table: table.name.clone(), column: p.column.clone() });
        },
        Some(i) => i,
    };
    let op = match descriptor_op(p.op) {
        None => {
            return Err(PushdownRejection::UnspecifiedOperation { column: p.column.clone() });
        },
        Some(op) => op,
    };
    if !op_in(&table.columns[ci].supported_ops, op) {
        return Err(PushdownRejection::UnsupportedOperation { column: p.column.clone(), op });
    }
    let values = p.values.len();
    let arity_ok = if op == DescriptorOp::In {
        values >= 1
    } else {
        values == 1
    };
    if !arity_ok {
        return Err(PushdownRejection::InvalidArity { column: p.column.clone(), op, values });
    }
    Ok(())
}

/// The deadline of a task accepted at `now` with time to live `ttl_ms`, or the error when
/// the time to live is zero, beyond the ceiling, or runs past the end of time.
pub open spec fn ttl_deadline(now: u64, ttl_ms: u64, b: PushdownBounds) -> Result<u64, PushdownRejection> {
    if ttl_ms == 0 || ttl_ms > b.max_ttl_ms || now + ttl_ms > u64::MAX {
        Err(PushdownRejection::InvalidTtl { ttl_ms })
    } else {
        Ok((now + ttl_ms) as u64)
    }
}

/// The outcome of accepting `task` at `now`: a missing plan, a missing or over-long task
/// id, a plan error or a time-to-live error refuse it, checked in this order; otherwise its
/// deadline.
pub open spec fn acceptance(d: SchemaDescriptor, b: PushdownBounds, task: DetectionTask, now: u64) -> Result<u64, PushdownRejection> {
    match task.pushdown_plan {
        None => Err(PushdownRejection::MissingPlan),
        Some(plan) => if task.task_id@.len() == 0 {
            Err(PushdownRejection::MissingTaskId)
        } else if identifier_error(task.task_id@, b) is Some {
            Err(identifier_error(task.task_id@, b)->0)
        } else if plan_error(d, plan, b) is Some {
            Err(plan_error(d, plan, b)->0)
        } else {
            ttl_deadline(now, plan.ttl_ms, b)
        },
    }
}

/// The status of a task with recorded deadline `deadline` (if any) at `now`.
pub open spec fn status_spec(deadline: Option<u64>, now: u64) -> TaskStatus {
    match deadline {
        None => TaskStatus::Unknown,
        Some(d) => if d > now {
            TaskStatus::Active
        } else {
            TaskStatus::Expired
        },
    }
}

/// The pushdown tasks a collector has accepted, and the schema it validates against.
#[derive(Debug)]
pub struct PushdownTasks {
    descriptor: SchemaDescriptor,
    bounds: PushdownBounds,
    accepted: StrMap<u64>,
}

impl PushdownTasks {
    /// The schema validated against.
    pub closed spec fn descriptor(&self) -> SchemaDescriptor {
        self.descriptor
    }

    /// The bounds applied.
    pub closed spec fn bounds(&self) -> PushdownBounds {
        self.bounds
    }

    /// The recorded tasks with their deadlines, in recording order.
    pub closed spec fn records(&self) -> StrMap<u64> {
        self.accepted
    }

    /// The deadline of each recorded task, by task id.
    pub closed spec fn deadlines(&self) -> Map<Seq<char>, u64> {
        self.accepted@
    }

    /// A task set that validates against `descriptor` within `bounds`.
    pub fn new(descriptor: SchemaDescriptor, bounds: PushdownBounds) -> (t: Self)
        ensures
            t.descriptor() == descriptor,
            t.bounds() == bounds,
            t.deadlines() == Map::<Seq<char>, u64>::empty(),
    {
        PushdownTasks { descriptor, bounds, accepted: StrMap::new() }
    }

    /// Validates `task` at `now` and records it when it passes, (re)setting its deadline.
    /// The other recorded tasks stay as they were, expired ones included, so that they go on
    /// reading as expired. Nothing is recorded unless the whole task validates.
    pub fn accept(&mut self, task: &DetectionTask, now: u64) -> (r: Result<(), PushdownRejection>)
        ensures
            acceptance(old(self).descriptor(), old(self).bounds(), *task, now) matches Err(e) ==> r
                == Err::<(), PushdownRejection>(e) && *final(self) == *old(self),
            acceptance(old(self).descriptor(), old(self).bounds(), *task, now) matches Ok(deadline) ==> {
                &&& r is Ok
                &&& final(self).deadlines() == old(self).deadlines().insert(task.task_id@, deadline)
                &&& final(self).descriptor() == old(self).descriptor()
                &&& final(self).bounds() == old(self).bounds()
            },
    {
        let plan = match &task.pushdown_plan {
            None => {
                return Err(PushdownRejection::MissingPlan);
            },
            Some(p) => p,
        };
        if task.task_id.as_str().is_empty() {
            return Err(PushdownRejection::MissingTaskId);
        }
        match check_identifier(task.task_id.as_str(), self.bounds) {
            Err(e) => {
                return Err(e);
            },
            Ok(()) => {},
        }
        match self.validate_plan(plan) {
            Err(e) => {
                return Err(e);
            },
            Ok(()) => {},
        }
        let ttl = plan.ttl_ms;
        if ttl == 0 || ttl > self.bounds.max_ttl_ms || now > u64::MAX - ttl {
            return Err(PushdownRejection::InvalidTtl { ttl_ms: ttl });
        }
        let deadline = now + ttl;
        self.accepted.insert(task.task_id.clone(), deadline);
        Ok(())
    }

    /// The lifecycle state of the task `task_id` at `now`.
    pub open spec fn status_of(&self, task_id: Seq<char>, now: u64) -> TaskStatus {
        status_spec(
            if self.deadlines().contains_key(task_id) { Some(self.deadlines()[task_id]) } else { None },
            now,
        )
    }

    /// The lifecycle state of `task_id` at `now`.
    pub fn status(&self, task_id: &str, now: u64) -> (s: TaskStatus)
        ensures
            s == self.status_of(task_id@, now),
    {
        match self.accepted.get(task_id) {
            None => TaskStatus::Unknown,
            Some(d) => if *d > now {
                TaskStatus::Active
            } else {
                TaskStatus::Expired
            },
        }
    }

    /// The number of recorded tasks still within their time to live at `now`.
    pub fn active_count(&self, now: u64) -> (n: usize)
        ensures
            n == active_upto(self.records(), self.records().keys().len(), now),
    {
        let mut n: usize = 0;
        let mut i: usize = 0;
        while i < self.accepted.len()
            invariant
                i <= self.accepted.keys().len(),
                n == active_upto(self.accepted, i as nat, now),
                n <= i,
            decreases self.accepted.keys().len() - i,
        {
            if *self.accepted.value_at(i) > now {
                n = n + 1;
            }
            i = i + 1;
        }
        n
    }

    /// Validates a plan's table, predicates and projection against the schema.
    fn validate_plan(&self, plan: &PushdownPlan) -> (r: Result<(), PushdownRejection>)
        ensures
            plan_error(self.descriptor(), *plan, self.bounds()) matches Some(e) ==> r == Err::<(), PushdownRejection>(e),
            plan_error(self.descriptor(), *plan, self.bounds()) is None ==> r is Ok,
    {
        let b = self.bounds;
        match check_identifier(plan.table.as_str(), b) {
            Err(e) => {
                return Err(e);
            },
            Ok(()) => {},
        }
        proof {
            lemma_table_pos(self.descriptor.tables@, plan.table@);
        }
        let mut ti: usize = 0;
        let mut found = false;
        while ti < self.descriptor.tables.len() && !found
            invariant
                ti <= self.descriptor.tables@.len(),
                found ==> ti < self.descriptor.tables@.len() && self.descriptor.tables@[ti as int].name@ == plan.table@,
                forall|j: int| 0 <= j < ti ==> (#[trigger] self.descriptor.tables@[j]).name@ != plan.table@,
            decreases self.descriptor.tables@.len() - ti + (if found { 0int } else { 1int }),
        {
            if str_eq(self.descriptor.tables[ti].name.as_str(), plan.table.as_str()) {
                found = true;
            } else {
                ti = ti + 1;
            }
        }
        if !found {
            return Err(PushdownRejection::UnknownTable { table: plan.table.clone() });
        }
        let table = &self.descriptor.tables[ti];
        proof {
            assert(table_pos(self.descriptor.tables@, plan.table@) == Some(ti as int));
            assert(plan.predicates@.skip(0) =~= plan.predicates@);
            assert(plan.projection@.skip(0) =~= plan.projection@);
        }
        let ghost outcome = plan_error(self.descriptor(), *plan, b);
        assert(outcome == if predicates_error(*table, plan.predicates@, b) is Some {
            predicates_error(*table, plan.predicates@, b)
        } else {
            projection_error(*table, plan.projection@, b)
        });
        let mut i: usize = 0;
        while i < plan.predicates.len()
            invariant
                i <= plan.predicates@.len(),
                predicates_error(*table, plan.predicates@, b) == predicates_error(*table, plan.predicates@.skip(i as int), b),
                outcome == if predicates_error(*table, plan.predicates@, b) is Some {
                    predicates_error(*table, plan.predicates@, b)
                } else {
                    projection_error(*table, plan.projection@, b)
                },
                outcome == plan_error(self.descriptor(), *plan, self.bounds()),
                b == self.bounds(),
            decreases plan.predicates@.len() - i,
        {
            proof {
                assert(plan.predicates@.skip(i as int)[0] == plan.predicates@[i as int]);
                assert(plan.predicates@.skip(i as int).drop_first() =~= plan.predicates@.skip(i as int + 1));
            }
            match validate_predicate(table, &plan.predicates[i], b) {
                Err(e) => {
                    return Err(e);
                },
                Ok(()) => {},
            }
            i = i + 1;
        }
        proof {
            assert(plan.predicates@.skip(i as int).len() == 0);
        }
        let mut j: usize = 0;
        while j < plan.projection.len()
            invariant
                j <= plan.projection@.len(),
                outcome == projection_error(*table, plan.projection@, b),
                outcome == plan_error(self.descriptor(), *plan, self.bounds()),
                b == self.bounds(),
                projection_error(*table, plan.projection@, b) == projection_error(*table, plan.projection@.skip(j as int), b),
            decreases plan.projection@.len() - j,
        {
            proof {
                assert(plan.projection@.skip(j as int)[0] == plan.projection@[j as int]);
                assert(plan.projection@.skip(j as int).drop_first() =~= plan.projection@.skip(j as int + 1));
            }
            match check_identifier(plan.projection[j].as_str(), b) {
                Err(e) => {
                    return Err(e);
                },
                Ok(()) => {},
            }
            match find_column(table, plan.projection[j].as_str()) {
                None => {
                    return Err(PushdownRejection::UnknownColumn { table: table.name.clone(), column: plan.projection[j].clone() });
                },
                Some(_) => {},
            }
            j = j + 1;
        }
        proof {
            assert(plan.projection@.skip(j as int).len() == 0);
        }
        Ok(())
    }
}

/// The number of the first `n` recorded tasks of `a` still within their time to live.
pub open spec fn active_upto(a: StrMap<u64>, n: nat, now: u64) -> nat
    decreases n,
{
    if n == 0 {
        0
    } else {
        active_upto(a, (n - 1) as nat, now) + if a.value_at_spec(n - 1) > now { 1nat } else { 0nat }
    }
}

/// Expiry is observable: a task recorded with deadline `d` is active strictly before `d`
/// and expired from `d` on.
pub proof fn law_expiry_at_deadline(d: u64, now: u64)
    ensures
        now < d ==> status_spec(Some(d), now) == TaskStatus::Active,
        now >= d ==> status_spec(Some(d), now) == TaskStatus::Expired,
{
}

/// A task accepted at `now` is active right away: its deadline lies after `now`.
pub proof fn law_accepted_task_active(d: SchemaDescriptor, b: PushdownBounds, task: DetectionTask, now: u64)
    requires
        acceptance(d, b, task, now) is Ok,
    ensures
        status_spec(Some(acceptance(d, b, task, now)->Ok_0), now) == TaskStatus::Active,
{
}

/// Accepting a task leaves the status of every other task unchanged at every time: a task
/// that has expired reads as expired whatever is accepted after it.
pub proof fn law_accept_keeps_other_status(
    before: PushdownTasks,
    after: PushdownTasks,
    task: DetectionTask,
    now: u64,
    other: Seq<char>,
    at: u64,
)
    requires
        acceptance(before.descriptor(), before.bounds(), task, now) is Ok,
        after.deadlines() == before.deadlines().insert(
            task.task_id@,
            acceptance(before.descriptor(), before.bounds(), task, now)->Ok_0,
        ),
        other != task.task_id@,
    ensures
        after.status_of(other, at) == before.status_of(other, at),
{
}

} // verus!
