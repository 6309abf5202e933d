//! SQL-to-IPC trigger evaluation.
//!
//! Conditions are compiled per collector; custom conditions carry a SQL `WHERE`
//! predicate that is parsed with `sqlparser` (it is kept, but custom conditions are not
//! evaluated yet and never match). The built-in conditions are evaluated directly.

use crate::event::TriggerRequest;
use crate::strmap::StrMap;
use crate::support::unix_now_micros;
use crate::text::{contains_sub, str_contains, to_upper, upper_case};
use crate::trigger::{
    condition_matches, evaluate_condition, make_trigger, trigger_from, ConditionEvaluationStats,
    ConditionType, ProcessTriggerData, SqlEvaluationStats, TriggerCondition,
};
use crate::trigger_queue::{sat_inc, TriggerError};
use vstd::prelude::*;

verus! {

/// A parsed SQL expression.
#[verifier::external_type_specification]
#[verifier::external_body]
pub struct ExSqlExpr(sqlparser::ast::Expr);

/// What parsing `sql` as a statement gives: `None` when the parser rejects it,
/// `Some(true)` when its first statement is a `SELECT` query with a `WHERE` clause, and
/// `Some(false)` otherwise.
pub uninterp spec fn sql_where_outcome(sql: Seq<char>) -> Option<bool>;

/// Parses `sql` and extracts the `WHERE` clause of its first statement.
///
/// Trusted: calls `sqlparser::parser::Parser::parse_sql` with the generic dialect. A
/// parser error comes back as its text; otherwise the `WHERE` expression of the first
/// statement, when that statement is a plain `SELECT` query that has one. The contract
/// ties the outcome to `sql` through `sql_where_outcome`; the error text is not stated.
#[verifier::external_body]
fn parse_where_clause(sql: &str) -> (r: Result<Option<sqlparser::ast::Expr>, String>)
    ensures
        r is Err <==> sql_where_outcome(sql@) is None,
        r matches Ok(o) ==> (o is Some <==> sql_where_outcome(sql@) == Some(true)),
{
    match sqlparser::parser::Parser::parse_sql(&sqlparser::dialect::GenericDialect {}, sql) {
        Ok(statements) => match statements.into_iter().next() {
            Some(sqlparser::ast::Statement::Query(query)) => match *query.body {
                sqlparser::ast::SetExpr::Select(select) => Ok(select.selection),
                _ => Ok(None),
            },
            _ => Ok(None),
        },
        Err(e) => Err(e.to_string()),
    }
}

/// Whether a predicate text is refused before parsing: it mentions `SELECT` or `FROM`
/// (in any case) or holds a `.` (a table-qualified name).
pub open spec fn sql_disallowed(s: Seq<char>) -> bool {
    contains_sub(upper_case(s), "SELECT"@) || contains_sub(upper_case(s), "FROM"@) || contains_sub(
        s,
        "."@,
    )
}

/// The statement a predicate is parsed in.
pub open spec fn where_statement(s: Seq<char>) -> Seq<char> {
    "SELECT * FROM dummy WHERE "@ + s
}

/// Whether a predicate compiles to an expression.
pub open spec fn predicate_compiles(s: Seq<char>) -> bool {
    !sql_disallowed(s) && sql_where_outcome(where_statement(s)) == Some(true)
}

/// Compiled trigger condition for efficient evaluation.
#[derive(Debug)]
pub struct CompiledTriggerCondition {
    /// Original condition
    pub condition: TriggerCondition,
    /// Compiled SQL predicate (if applicable)
    pub compiled_predicate: Option<sqlparser::ast::Expr>,
    /// Evaluation statistics
    pub stats: ConditionEvaluationStats,
}

/// Whether `cc` is condition `c` freshly compiled: a predicate exactly when `c` is a
/// custom condition whose text compiles, and no statistics yet.
pub open spec fn compiled_from(cc: CompiledTriggerCondition, c: TriggerCondition) -> bool {
    &&& cc.condition == c
    &&& (cc.compiled_predicate is Some <==> (c.condition_type matches ConditionType::Custom(s)
        && predicate_compiles(s@)))
    &&& cc.stats == ConditionEvaluationStats::zero_spec()
}

impl ConditionEvaluationStats {
    /// The statistics of a condition not evaluated yet.
    pub open spec fn zero_spec() -> ConditionEvaluationStats {
        ConditionEvaluationStats {
            evaluation_count: 0,
            match_count: 0,
            total_evaluation_time_us: 0,
            last_evaluation: None,
        }
    }

    /// The statistics of a condition not evaluated yet.
    pub fn zero() -> (s: ConditionEvaluationStats)
        ensures
            s == ConditionEvaluationStats::zero_spec(),
    {
        ConditionEvaluationStats {
            evaluation_count: 0,
            match_count: 0,
            total_evaluation_time_us: 0,
            last_evaluation: None,
        }
    }
}

impl SqlEvaluationStats {
    /// Statistics before any evaluation.
    pub open spec fn zero_spec() -> SqlEvaluationStats {
        SqlEvaluationStats {
            total_evaluations: 0,
            successful_matches: 0,
            evaluation_errors: 0,
            avg_evaluation_time_us: 0,
            sql_parsing_errors: 0,
        }
    }

    /// Statistics before any evaluation.
    pub fn zero() -> (s: SqlEvaluationStats)
        ensures
            s == SqlEvaluationStats::zero_spec(),
    {
        SqlEvaluationStats {
            total_evaluations: 0,
            successful_matches: 0,
            evaluation_errors: 0,
            avg_evaluation_time_us: 0,
            sql_parsing_errors: 0,
        }
    }
}

/// The running average after the `n`-th sample: `(avg * (n - 1) + sample) / n`, rounded
/// down and capped at the largest `u64`.
pub open spec fn running_average_spec(avg: u64, n: u64, sample: u64) -> u64 {
    let v = (avg * (n - 1) + sample) / (n as int);
    if v <= u64::MAX {
        v as u64
    } else {
        u64::MAX
    }
}

/// Folds sample number `n` (counting from 1) into a running average.
pub fn running_average(avg: u64, n: u64, sample: u64) -> (r: u64)
    requires
        n >= 1,
    ensures
        r == running_average_spec(avg, n, sample),
{
    let a = avg as u128;
    let m = (n - 1) as u128;
    assert(a * m <= 0xffff_ffff_ffff_ffff * 0xffff_ffff_ffff_ffff) by (nonlinear_arith)
        requires
            a <= 0xffff_ffff_ffff_ffff,
            m <= 0xffff_ffff_ffff_ffff,
    ;
    assert(0xffff_ffff_ffff_ffffu128 * 0xffff_ffff_ffff_ffffu128 + 0xffff_ffff_ffff_ffffu128
        <= u128::MAX);
    let total = a * m + sample as u128;
    let v = total / (n as u128);
    if v <= 0xffff_ffff_ffff_ffff {
        v as u64
    } else {
        u64::MAX
    }
}

/// The indices of the compiled conditions among the first `n` of `list` that match `d`.
pub open spec fn matching_indices(
    list: Seq<CompiledTriggerCondition>,
    n: nat,
    d: ProcessTriggerData,
) -> Seq<int>
    decreases n,
{
    if n == 0 {
        Seq::empty()
    } else {
        let r = matching_indices(list, (n - 1) as nat, d);
        if condition_matches(list[n - 1].condition.condition_type, d) {
            r.push(n - 1)
        } else {
            r
        }
    }
}

/// Whether `new` is `old` after one evaluation at time `now`: each condition counted as
/// evaluated, matches counted, the evaluation time recorded; conditions and predicates
/// unchanged.
pub open spec fn stats_advanced(
    old: Seq<CompiledTriggerCondition>,
    new: Seq<CompiledTriggerCondition>,
    d: ProcessTriggerData,
    now: u64,
) -> bool {
    &&& new.len() == old.len()
    &&& forall|i: int|
        0 <= i < old.len() ==> {
            &&& (#[trigger] new[i]).condition == old[i].condition
            &&& new[i].compiled_predicate == old[i].compiled_predicate
            &&& new[i].stats.evaluation_count == sat_inc(old[i].stats.evaluation_count)
            &&& new[i].stats.match_count == if condition_matches(
                old[i].condition.condition_type,
                d,
            ) {
                sat_inc(old[i].stats.match_count)
            } else {
                old[i].stats.match_count
            }
            &&& new[i].stats.last_evaluation == Some(now)
            &&& new[i].stats.total_evaluation_time_us >= old[i].stats.total_evaluation_time_us
        }
}

/// Whether `out` holds the requests made for the conditions of `list` at `idx`, in order.
pub open spec fn sql_requests_for(
    out: Seq<TriggerRequest>,
    list: Seq<CompiledTriggerCondition>,
    idx: Seq<int>,
    d: ProcessTriggerData,
    now: u64,
) -> bool {
    &&& out.len() == idx.len()
    &&& forall|j: int|
        0 <= j < out.len() ==> 0 <= #[trigger] idx[j] < list.len() && trigger_from(
            out[j],
            list[idx[j]].condition,
            d,
            now,
            true,
        )
}

/// Whether `new` is `old` after evaluating the conditions of collector `id` on `d` at
/// `now`, making the requests `out`.
pub open spec fn sql_evaluation_outcome(
    old: SqlTriggerEvaluator,
    new: SqlTriggerEvaluator,
    id: Seq<char>,
    d: ProcessTriggerData,
    now: u64,
    out: Seq<TriggerRequest>,
) -> bool {
    &&& new.stats().total_evaluations == sat_inc(old.stats().total_evaluations)
    &&& new.stats().evaluation_errors == old.stats().evaluation_errors
    &&& new.stats().sql_parsing_errors == old.stats().sql_parsing_errors
    &&& !old.compiled().contains_key(id) ==> {
        &&& out.len() == 0
        &&& new.compiled() == old.compiled()
        &&& new.stats().successful_matches == old.stats().successful_matches
        &&& new.stats().avg_evaluation_time_us == old.stats().avg_evaluation_time_us
    }
    &&& old.compiled().contains_key(id) ==> {
        let list = old.compiled()[id]@;
        let idx = matching_indices(list, list.len(), d);
        &&& sql_requests_for(out, list, idx, d, now)
        &&& new.compiled() == old.compiled().insert(id, new.compiled()[id])
        &&& stats_advanced(list, new.compiled()[id]@, d, now)
        &&& new.stats().successful_matches == sat_add_len(old.stats().successful_matches, idx.len())
    }
}

/// The conditions, in order, whose requests an evaluation for collector `id` on `d` makes.
pub open spec fn sql_request_conditions(e: SqlTriggerEvaluator, id: Seq<char>, d: ProcessTriggerData) -> Seq<
    TriggerCondition,
> {
    if !e.compiled().contains_key(id) {
        Seq::empty()
    } else {
        let list = e.compiled()[id]@;
        let idx = matching_indices(list, list.len(), d);
        Seq::new(idx.len(), |i: int| list[idx[i]].condition)
    }
}

/// SQL-to-IPC integration for trigger condition evaluation.
#[derive(Debug)]
pub struct SqlTriggerEvaluator {
    compiled_conditions: StrMap<Vec<CompiledTriggerCondition>>,
    evaluation_stats: SqlEvaluationStats,
}

impl SqlTriggerEvaluator {
    /// The compiled conditions of each collector.
    pub closed spec fn compiled(&self) -> Map<Seq<char>, Vec<CompiledTriggerCondition>> {
        self.compiled_conditions@
    }

    /// The evaluation statistics.
    pub closed spec fn stats(&self) -> SqlEvaluationStats {
        self.evaluation_stats
    }

    /// Creates an evaluator with no conditions.
    pub fn new() -> (e: Self)
        ensures
            e.compiled() == Map::<Seq<char>, Vec<CompiledTriggerCondition>>::empty(),
            e.stats() == SqlEvaluationStats::zero_spec(),
    {
        SqlTriggerEvaluator { compiled_conditions: StrMap::new(), evaluation_stats: SqlEvaluationStats::zero() }
    }

    /// Parses a SQL `WHERE` predicate. Predicates that mention `SELECT` or `FROM` (in any
    /// case) or hold a `.` are refused before parsing; otherwise the predicate is parsed
    /// as `SELECT * FROM dummy WHERE <predicate>` and its `WHERE` clause returned.
    pub fn parse_sql_expression(&self, sql_expr: &str) -> (r: Result<sqlparser::ast::Expr, TriggerError>)
        ensures
            r is Ok <==> predicate_compiles(sql_expr@),
            sql_disallowed(sql_expr@) ==> (r matches Err(TriggerError::SqlParsingError(m)) && m@
                == "Expression contains disallowed patterns (e.g., SELECT, FROM, table-qualified identifiers, subqueries): "@
                + sql_expr@),
            !sql_disallowed(sql_expr@) && sql_where_outcome(where_statement(sql_expr@)) is None
                ==> (r matches Err(TriggerError::SqlParsingError(m)) && m@.subrange(0, 32) == "Failed to parse SQL expression: "@),
            !sql_disallowed(sql_expr@) && sql_where_outcome(where_statement(sql_expr@)) == Some(false)
                ==> (r matches Err(TriggerError::SqlParsingError(m)) && m@ == "Could not extract WHERE clause expression from SQL statement."@),
    {
        let upper = to_upper(sql_expr);
        if str_contains(upper.as_str(), "SELECT") || str_contains(upper.as_str(), "FROM")
            || str_contains(sql_expr, ".") {
            let msg = String::from_str(
                "Expression contains disallowed patterns (e.g., SELECT, FROM, table-qualified identifiers, subqueries): ",
            ).concat(sql_expr);
            return Err(TriggerError::SqlParsingError(msg));
        }
        let sql = String::from_str("SELECT * FROM dummy WHERE ").concat(sql_expr);
        match parse_where_clause(sql.as_str()) {
            Ok(Some(expr)) => Ok(expr),
            Ok(None) => Err(
                TriggerError::SqlParsingError(
                    String::from_str("Could not extract WHERE clause expression from SQL statement."),
                ),
            ),
            Err(e) => {
                let prefix = String::from_str("Failed to parse SQL expression: ");
                proof {
                    reveal_strlit("Failed to parse SQL expression: ");
                    assert(prefix@.len() == 32);
                }
                let msg = prefix.concat(e.as_str());
                assert(msg@.subrange(0, 32) =~= prefix@);
                Err(TriggerError::SqlParsingError(msg))
            },
        }
    }

    /// Compiles a condition: a custom condition's predicate is parsed (a predicate that
    /// does not parse is kept as no predicate); built-in conditions need no compilation.
    pub fn compile_condition(&self, condition: TriggerCondition) -> (r: Result<
        CompiledTriggerCondition,
        TriggerError,
    >)
        ensures
            r matches Ok(cc) && compiled_from(cc, condition),
    {
        let compiled_predicate = match &condition.condition_type {
            ConditionType::Custom(sql_expr) => match self.parse_sql_expression(sql_expr.as_str()) {
                Ok(expr) => Some(expr),
                Err(_) => None,
            },
            _ => None,
        };
        Ok(CompiledTriggerCondition { condition, compiled_predicate, stats: ConditionEvaluationStats::zero() })
    }

    /// Registers (replacing any earlier ones) the conditions of a collector, compiled in
    /// order.
    pub fn register_collector_conditions(
        &mut self,
        collector_id: String,
        conditions: Vec<TriggerCondition>,
    ) -> (r: Result<(), TriggerError>)
        ensures
            r is Ok,
            final(self).compiled() == old(self).compiled().insert(
                collector_id@,
                final(self).compiled()[collector_id@],
            ),
            final(self).compiled()[collector_id@]@.len() == conditions@.len(),
            forall|i: int|
                0 <= i < conditions@.len() ==> compiled_from(
                    #[trigger] final(self).compiled()[collector_id@]@[i],
                    conditions@[i],
                ),
            final(self).stats() == old(self).stats(),
    {
        let mut compiled: Vec<CompiledTriggerCondition> = Vec::new();
        let mut i: usize = 0;
        while i < conditions.len()
            invariant
                i <= conditions@.len(),
                compiled@.len() == i,
                forall|j: int| 0 <= j < i ==> compiled_from(#[trigger] compiled@[j], conditions@[j]),
            decreases conditions@.len() - i,
        {
            let c = conditions[i].duplicate();
            match self.compile_condition(c) {
                Ok(cc) => {
                    compiled.push(cc);
                },
                Err(e) => {
                    return Err(e);
                },
            }
            i = i + 1;
        }
        self.compiled_conditions.insert(collector_id, compiled);
        Ok(())
    }

    /// Evaluates the conditions registered for `collector_id` on `d`, making a request
    /// (stamped `now`) for each match in order. Counts the evaluation, the matches, and each
    /// condition's evaluation; a collector with no conditions gives no requests.
    ///
    /// The evaluation times (each condition's total and the overall average) are read from
    /// the clock; of them only that a condition's total does not decrease is stated.
    pub fn evaluate_sql_triggers_at(
        &mut self,
        collector_id: &str,
        d: &ProcessTriggerData,
        now: u64,
    ) -> (r: Result<Vec<TriggerRequest>, TriggerError>)
        ensures
            r matches Ok(v) && sql_evaluation_outcome(*old(self), *final(self), collector_id@, *d, now, v@),
    {
        self.evaluation_stats.total_evaluations = self.evaluation_stats.total_evaluations.saturating_add(1);
        let pos = self.compiled_conditions.find(collector_id);
        let p = match pos {
            None => {
                let v: Vec<TriggerRequest> = Vec::new();
                assert(sql_evaluation_outcome(*old(self), *self, collector_id@, *d, now, v@));
                return Ok(v);
            },
            Some(p) => p,
        };
        let start_us = unix_now_micros();
        let mut list = self.compiled_conditions.replace_value(p, Vec::new());
        let ghost old_list = list@;
        let n = list.len();
        let mut newv: Vec<CompiledTriggerCondition> = Vec::new();
        let mut out: Vec<TriggerRequest> = Vec::new();
        let ghost mut idx: Seq<int> = Seq::empty();
        let ghost sm0 = self.evaluation_stats.successful_matches;
        let mut matched: u64 = self.evaluation_stats.successful_matches;
        let mut k: usize = 0;
        while list.len() > 0
            invariant
                n == old_list.len(),
                k + list@.len() == n,
                list@ == old_list.skip(k as int),
                newv@.len() == k,
                stats_advanced(old_list.take(k as int), newv@, *d, now),
                idx == matching_indices(old_list, k as nat, *d),
                forall|j: int| 0 <= j < idx.len() ==> 0 <= #[trigger] idx[j] < k,
                sql_requests_for(out@, old_list, idx, *d, now),
                matched == sat_add_len(sm0, idx.len()),
            decreases list@.len(),
        {
            proof {
                assert(old_list.skip(k as int)[0] == old_list[k as int]);
            }
            let mut cc = list.remove(0);
            proof {
                assert(list@ =~= old_list.skip(k as int + 1));
            }
            let cstart = unix_now_micros();
            let matches = evaluate_condition(&cc.condition.condition_type, d);
            if matches {
                matched = matched.saturating_add(1);
                let t = make_trigger(&cc.condition, d, now, true);
                out.push(t);
                proof {
                    idx = idx.push(k as int);
                }
            }
            let cend = unix_now_micros();
            let ghost before = cc.stats;
            cc.stats.evaluation_count = cc.stats.evaluation_count.saturating_add(1);
            cc.stats.last_evaluation = Some(now);
            if matches {
                cc.stats.match_count = cc.stats.match_count.saturating_add(1);
            }
            cc.stats.total_evaluation_time_us = cc.stats.total_evaluation_time_us.saturating_add(
                cend.saturating_sub(cstart),
            );
            let ghost prev_new = newv@;
            newv.push(cc);
            proof {
                assert(old_list.take(k as int + 1).drop_last() =~= old_list.take(k as int));
                assert forall|i: int| 0 <= i < k + 1 implies {
                    &&& (#[trigger] newv@[i]).condition == old_list.take(k as int + 1)[i].condition
                    &&& newv@[i].compiled_predicate == old_list.take(k as int + 1)[i].compiled_predicate
                    &&& newv@[i].stats.evaluation_count == sat_inc(old_list.take(k as int + 1)[i].stats.evaluation_count)
                    &&& newv@[i].stats.match_count == if condition_matches(
                        old_list.take(k as int + 1)[i].condition.condition_type,
                        *d,
                    ) {
                        sat_inc(old_list.take(k as int + 1)[i].stats.match_count)
                    } else {
                        old_list.take(k as int + 1)[i].stats.match_count
                    }
                    &&& newv@[i].stats.last_evaluation == Some(now)
                    &&& newv@[i].stats.total_evaluation_time_us >= old_list.take(k as int + 1)[i].stats.total_evaluation_time_us
                } by {
                    if i < k {
                        assert(newv@[i] == prev_new[i]);
                        assert(old_list.take(k as int + 1)[i] == old_list.take(k as int)[i]);
                    }
                }
            }
            k = k + 1;
        }
        proof {
            assert(old_list.take(n as int) =~= old_list);
        }
        self.compiled_conditions.replace_value(p, newv);
        let end_us = unix_now_micros();
        let total = self.evaluation_stats.total_evaluations;
        self.evaluation_stats.avg_evaluation_time_us = running_average(
            self.evaluation_stats.avg_evaluation_time_us,
            total,
            end_us.saturating_sub(start_us),
        );
        self.evaluation_stats.successful_matches = matched;
        proof {
            let list = old(self).compiled()[collector_id@]@;
            let idx2 = matching_indices(list, list.len(), *d);
            assert(list == old_list);
            assert(idx2 == idx);
            assert(sql_requests_for(out@, list, idx2, *d, now));
            assert(self.compiled() == old(self).compiled().insert(collector_id@, self.compiled()[collector_id@]));
            assert(stats_advanced(list, self.compiled()[collector_id@]@, *d, now));
            assert(self.stats().successful_matches == sat_add_len(old(self).stats().successful_matches, idx2.len()));
        }
        assert(sql_evaluation_outcome(*old(self), *self, collector_id@, *d, now, out@));
        Ok(out)
    }

    /// Returns SQL evaluation statistics.
    pub fn get_evaluation_stats(&self) -> (s: SqlEvaluationStats)
        ensures
            s == self.stats(),
    {
        self.evaluation_stats
    }

    /// The id and statistics of each condition registered for `collector_id`, in order
    /// (none for an unknown collector).
    pub fn get_condition_stats(&self, collector_id: &str) -> (r: Vec<(String, ConditionEvaluationStats)>)
        ensures
            !self.compiled().contains_key(collector_id@) ==> r@.len() == 0,
            self.compiled().contains_key(collector_id@) ==> {
                let list = self.compiled()[collector_id@]@;
                &&& r@.len() == list.len()
                &&& forall|i: int|
                    0 <= i < list.len() ==> (#[trigger] r@[i]).0 == list[i].condition.id
                        && r@[i].1 == list[i].stats
            },
    {
        let mut r: Vec<(String, ConditionEvaluationStats)> = Vec::new();
        match self.compiled_conditions.get(collector_id) {
            None => r,
            Some(list) => {
                let mut i: usize = 0;
                while i < list.len()
                    invariant
                        i <= list@.len(),
                        r@.len() == i,
                        forall|j: int|
                            0 <= j < i ==> (#[trigger] r@[j]).0 == list@[j].condition.id && r@[j].1
                                == list@[j].stats,
                    decreases list@.len() - i,
                {
                    r.push((list[i].condition.id.clone(), list[i].stats));
                    i = i + 1;
                }
                r
            },
        }
    }
}

/// `x + n`, saturating at the largest `u64`.
pub open spec fn sat_add_len(x: u64, n: nat) -> u64 {
    if x + n <= u64::MAX {
        (x + n) as u64
    } else {
        u64::MAX
    }
}

impl Default for SqlTriggerEvaluator {
    fn default() -> (e: Self)
        ensures
            e.compiled() == Map::<Seq<char>, Vec<CompiledTriggerCondition>>::empty(),
            e.stats() == SqlEvaluationStats::zero_spec(),
    {
        SqlTriggerEvaluator::new()
    }
}

} // verus!