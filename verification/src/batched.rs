//! A helper for splitting arbitrarily sized bulk inserts into batches that
//! respect the engine's maximum bound-parameter count.

use vstd::prelude::*;

use crate::error::Error;
use crate::query::values_clause;
use crate::sqlite;

verus! {

/// The engine's maximum number of bound parameters in one statement.
pub const PARAMS_LIMIT: usize = 0x7FFE;

/// The largest row count per batch that keeps one statement's parameter
/// count within the engine's limit, for `cols` parameters per row and
/// `pre + post` fixed parameters.
pub open spec fn spec_max_batch(pre: nat, post: nat, cols: nat) -> nat {
    (((PARAMS_LIMIT as nat) - pre - post) as nat) / cols
}

/// The requested batch size clamped to the largest safe one.
pub open spec fn spec_clamped_batch(requested: nat, pre: nat, post: nat, cols: nat) -> nat {
    if requested < spec_max_batch(pre, post, cols) {
        requested
    } else {
        spec_max_batch(pre, post, cols)
    }
}

/// Computes the largest safe batch size. It is never zero, and a full batch
/// of that many rows, together with the fixed parameters, stays within the
/// engine's limit.
pub fn max_batch_size(pre_len: usize, post_len: usize, column_count: usize) -> (r: usize)
    requires
        column_count >= 1,
        pre_len + post_len + column_count <= PARAMS_LIMIT,
    ensures
        r == spec_max_batch(pre_len as nat, post_len as nat, column_count as nat),
        r >= 1,
        pre_len + post_len + r * column_count <= PARAMS_LIMIT,
{
    let room = PARAMS_LIMIT - pre_len - post_len;
    let r = room / column_count;
    proof {
        assert(r == room as nat / column_count as nat);
        assert(r >= 1 && r * column_count <= room) by (nonlinear_arith)
            requires
                column_count >= 1,
                room >= column_count,
                r == room as int / column_count as int,
        ;
    }
    r
}

/// The clamp keeps every batch within the engine's limit: the clamped batch
/// size is at least one row, and a statement for a full clamped batch binds
/// at most `PARAMS_LIMIT` parameters. Batches never grow past the clamp, so
/// no statement the executor issues can exceed the limit.
pub proof fn lemma_clamped_batch_within_limit(requested: nat, pre: nat, post: nat, cols: nat)
    requires
        1 <= requested,
        1 <= cols,
        pre + post + cols <= PARAMS_LIMIT as nat,
    ensures
        1 <= spec_clamped_batch(requested, pre, post, cols),
        pre + post + spec_clamped_batch(requested, pre, post, cols) * cols <= PARAMS_LIMIT as nat,
{
    let room = (PARAMS_LIMIT as nat) - pre - post;
    let m = spec_max_batch(pre, post, cols);
    assert(m >= 1 && m * cols <= room) by (nonlinear_arith)
        requires
            cols >= 1,
            room >= cols,
            m == room as int / cols as int,
    ;
    let c = spec_clamped_batch(requested, pre, post, cols);
    assert(c * cols <= m * cols) by (nonlinear_arith)
        requires
            c <= m,
            cols >= 0,
    ;
}

/// A single-use bulk helper: a query template split around its `VALUES`
/// clause, and fixed parameters bound before and after the per-row ones.
pub struct BatchedBulkValuesClause {
    /// Query text spliced before the `VALUES` clause.
    pub query_prefix: String,
    /// Query text spliced after the `VALUES` clause.
    pub query_suffix: String,
    /// Fixed parameters bound before each batch's row values.
    pub pre_params: Vec<rusqlite::types::Value>,
    /// Fixed parameters bound after each batch's row values.
    pub post_params: Vec<rusqlite::types::Value>,
}

impl BatchedBulkValuesClause {
    /// Creates a helper whose statements read `prefix VALUES (...),... suffix`.
    pub fn new(query_prefix: String, query_suffix: String) -> (r: Self)
        ensures
            r.query_prefix@ == query_prefix@,
            r.query_suffix@ == query_suffix@,
            r.pre_params@.len() == 0,
            r.post_params@.len() == 0,
    {
        BatchedBulkValuesClause {
            query_prefix,
            query_suffix,
            pre_params: Vec::new(),
            post_params: Vec::new(),
        }
    }

    /// Appends params to come before the rows to be inserted. Useful when the
    /// query has some fixed parameters.
    pub fn bind_pre(&mut self, params: Vec<rusqlite::types::Value>)
        ensures
            final(self).pre_params@ == old(self).pre_params@ + params@,
            final(self).post_params@ == old(self).post_params@,
            final(self).query_prefix@ == old(self).query_prefix@,
            final(self).query_suffix@ == old(self).query_suffix@,
    {
        let mut params = params;
        self.pre_params.append(&mut params);
    }

    /// Appends params to come after the rows to be inserted. Useful when the
    /// query has some fixed parameters.
    pub fn bind_post(&mut self, params: Vec<rusqlite::types::Value>)
        ensures
            final(self).post_params@ == old(self).post_params@ + params@,
            final(self).pre_params@ == old(self).pre_params@,
            final(self).query_prefix@ == old(self).query_prefix@,
            final(self).query_suffix@ == old(self).query_suffix@,
    {
        let mut params = params;
        self.post_params.append(&mut params);
    }

    /// The parameters of one batch, exactly in binding order: the fixed
    /// pre-params, then each row's values in row order, then the fixed
    /// post-params.
    fn batch_params(&self, rows: &Vec<Vec<rusqlite::types::Value>>, start: usize, count: usize)
        -> (r: Vec<rusqlite::types::Value>)
        requires
            start + count <= rows@.len(),
        ensures
            r@ == self.pre_params@ + row_values_flat(rows@, start as int, count as int)
                + self.post_params@,
    {
        let row_total = rows.len();
        let mut params = sqlite::values_clone(&self.pre_params);
        proof {
            assert(params@ =~= self.pre_params@ + row_values_flat(rows@, start as int, 0));
        }
        let mut k: usize = 0;
        while k < count
            invariant
                k <= count,
                start + count <= rows@.len(),
                rows@.len() == row_total,
                params@ == self.pre_params@ + row_values_flat(rows@, start as int, k as int),
            decreases count - k,
        {
            let mut row = sqlite::values_clone(&rows[start + k]);
            params.append(&mut row);
            k = k + 1;
            proof {
                assert(params@ =~= self.pre_params@ + row_values_flat(
                    rows@,
                    start as int,
                    k as int,
                ));
            }
        }
        let mut post = sqlite::values_clone(&self.post_params);
        params.append(&mut post);
        params
    }

    /// Executes a bulk insert against the given transaction, `batch_size`
    /// rows at a time (clamped so that no statement can exceed the engine's
    /// bound-parameter limit). Returns the engine's count of modified rows,
    /// summed across batches (saturating). The rows must share one shape,
    /// and the fixed parameters must leave room for at least one row.
    pub fn execute(
        self,
        transaction: &rusqlite::Transaction<'_>,
        batch_size: usize,
        rows: &Vec<Vec<rusqlite::types::Value>>,
    ) -> (r: Result<usize, Error>)
        requires
            batch_size >= 1,
            forall|i: int| 0 <= i < rows@.len() ==> #[trigger] rows@[i]@.len() == rows@[0]@.len(),
            rows@.len() > 0 ==> 1 <= rows@[0]@.len() && self.pre_params@.len()
                + self.post_params@.len() + rows@[0]@.len() <= PARAMS_LIMIT,
        ensures
            rows@.len() == 0 ==> r == Ok::<usize, Error>(0),
            r matches Err(e) ==> e is Rusqlite,
    {
        if rows.len() == 0 {
            return Ok(0);
        }
        let column_count = rows[0].len();
        let max_batch = max_batch_size(self.pre_params.len(), self.post_params.len(), column_count);
        let clamped = if batch_size < max_batch {
            batch_size
        } else {
            max_batch
        };
        proof {
            assert(clamped * column_count <= max_batch * column_count) by (nonlinear_arith)
                requires
                    clamped <= max_batch,
                    column_count >= 0,
            ;
        }
        let mut consumed: usize = 0;
        let mut modified: usize = 0;
        while consumed < rows.len()
            invariant
                consumed <= rows@.len(),
                clamped >= 1,
                column_count >= 1,
                column_count == rows@[0]@.len(),
                self.pre_params@.len() + self.post_params@.len() + clamped * column_count
                    <= PARAMS_LIMIT,
                forall|i: int| 0 <= i < rows@.len() ==> #[trigger] rows@[i]@.len() == rows@[0]@.len(),
            decreases rows@.len() - consumed,
        {
            let remaining = rows.len() - consumed;
            let this_batch = if remaining < clamped {
                remaining
            } else {
                clamped
            };
            let clause = values_clause(column_count, this_batch);
            let mut sql = self.query_prefix.clone();
            sql.append(clause.as_str());
            sql.append(self.query_suffix.as_str());
            let params = self.batch_params(rows, consumed, this_batch);
            proof {
                lemma_row_values_flat_uniform(rows@, consumed as int, this_batch as int, column_count as nat);
                assert(this_batch * column_count <= clamped * column_count) by (nonlinear_arith)
                    requires
                        this_batch <= clamped,
                        column_count >= 0,
                ;
                // No statement this executor issues can exceed the engine's
                // bound-parameter limit.
                assert(params@.len() <= PARAMS_LIMIT);
            }
            let mut stmt = match sqlite::prepare_cached(transaction, sql.as_str()) {
                Ok(s) => s,
                Err(t) => {
                    return Err(Error::Rusqlite(t));
                },
            };
            let n = match sqlite::stmt_execute(&mut stmt, &params) {
                Ok(n) => n,
                Err(t) => {
                    return Err(Error::Rusqlite(t));
                },
            };
            if this_batch < clamped {
                sqlite::stmt_discard(stmt);
            }
            modified = saturating_add(modified, n);
            consumed = consumed + this_batch;
        }
        Ok(modified)
    }

    /// Runs a bulk query against the given transaction, `batch_size` rows at
    /// a time (clamped as in [`Self::execute`]). Returns the result's column
    /// names, resolved once from the first batch, and the accumulated result
    /// rows; every returned row has one value per column of the statement's
    /// result, so the rows share one width.
    pub fn query(
        self,
        transaction: &rusqlite::Transaction<'_>,
        batch_size: usize,
        rows: &Vec<Vec<rusqlite::types::Value>>,
    ) -> (r: Result<(Vec<String>, Vec<Vec<rusqlite::types::Value>>), Error>)
        requires
            batch_size >= 1,
            forall|i: int| 0 <= i < rows@.len() ==> #[trigger] rows@[i]@.len() == rows@[0]@.len(),
            rows@.len() > 0 ==> 1 <= rows@[0]@.len() && self.pre_params@.len()
                + self.post_params@.len() + rows@[0]@.len() <= PARAMS_LIMIT,
        ensures
            rows@.len() == 0 ==> (r matches Ok(p) && p.0@.len() == 0 && p.1@.len() == 0),
            r matches Ok(p) ==> forall|i: int, j: int|
                0 <= i < p.1@.len() && 0 <= j < p.1@.len() ==> p.1@[i]@.len() == p.1@[j]@.len(),
            r matches Err(e) ==> e is Rusqlite,
    {
        let mut names: Vec<String> = Vec::new();
        let mut out_rows: Vec<Vec<rusqlite::types::Value>> = Vec::new();
        if rows.len() == 0 {
            return Ok((names, out_rows));
        }
        let column_count = rows[0].len();
        let max_batch = max_batch_size(self.pre_params.len(), self.post_params.len(), column_count);
        let clamped = if batch_size < max_batch {
            batch_size
        } else {
            max_batch
        };
        proof {
            assert(clamped * column_count <= max_batch * column_count) by (nonlinear_arith)
                requires
                    clamped <= max_batch,
                    column_count >= 0,
            ;
        }
        let mut consumed: usize = 0;
        let mut width: usize = 0;
        while consumed < rows.len()
            invariant
                consumed <= rows@.len(),
                clamped >= 1,
                column_count >= 1,
                column_count == rows@[0]@.len(),
                self.pre_params@.len() + self.post_params@.len() + clamped * column_count
                    <= PARAMS_LIMIT,
                consumed == 0 ==> out_rows@.len() == 0,
                forall|i: int| 0 <= i < rows@.len() ==> #[trigger] rows@[i]@.len() == rows@[0]@.len(),
                forall|i: int| 0 <= i < out_rows@.len() ==> #[trigger] out_rows@[i]@.len() == width as nat,
            decreases rows@.len() - consumed,
        {
            let remaining = rows.len() - consumed;
            let this_batch = if remaining < clamped {
                remaining
            } else {
                clamped
            };
            let clause = values_clause(column_count, this_batch);
            let mut sql = self.query_prefix.clone();
            sql.append(clause.as_str());
            sql.append(self.query_suffix.as_str());
            let params = self.batch_params(rows, consumed, this_batch);
            proof {
                lemma_row_values_flat_uniform(rows@, consumed as int, this_batch as int, column_count as nat);
                assert(this_batch * column_count <= clamped * column_count) by (nonlinear_arith)
                    requires
                        this_batch <= clamped,
                        column_count >= 0,
                ;
                // No statement this executor issues can exceed the engine's
                // bound-parameter limit.
                assert(params@.len() <= PARAMS_LIMIT);
            }
            let mut stmt = match sqlite::prepare_cached(transaction, sql.as_str()) {
                Ok(s) => s,
                Err(t) => {
                    return Err(Error::Rusqlite(t));
                },
            };
            if consumed == 0 {
                width = sqlite::stmt_column_count(&stmt);
                names = sqlite::stmt_column_names(&stmt);
                proof {
                    assert(out_rows@.len() == 0);
                }
            }
            let mut batch_rows = match sqlite::stmt_query_rows(&mut stmt, &params, width) {
                Ok(rs) => rs,
                Err(t) => {
                    return Err(Error::Rusqlite(t));
                },
            };
            out_rows.append(&mut batch_rows);
            if this_batch < clamped {
                sqlite::stmt_discard(stmt);
            }
            consumed = consumed + this_batch;
        }
        Ok((names, out_rows))
    }
}

/// The sum of two counts, capped at the machine word's limit.
fn saturating_add(a: usize, b: usize) -> (r: usize)
    ensures
        r == if a + b <= usize::MAX {
            a + b
        } else {
            usize::MAX as int
        },
{
    if a <= usize::MAX - b {
        a + b
    } else {
        usize::MAX
    }
}

/// The values of `count` rows starting at `start`, flattened in row order.
pub open spec fn row_values_flat(
    rows: Seq<Vec<rusqlite::types::Value>>,
    start: int,
    count: int,
) -> Seq<rusqlite::types::Value>
    decreases count,
{
    if count <= 0 {
        Seq::empty()
    } else {
        row_values_flat(rows, start, count - 1) + rows[start + count - 1]@
    }
}

/// Rows of one shape flatten to one value per row and column.
proof fn lemma_row_values_flat_uniform(
    rows: Seq<Vec<rusqlite::types::Value>>,
    start: int,
    count: int,
    cols: nat,
)
    requires
        0 <= start,
        0 <= count,
        start + count <= rows.len(),
        forall|i: int| 0 <= i < rows.len() ==> #[trigger] rows[i]@.len() == cols,
    ensures
        row_values_flat(rows, start, count).len() == count * cols,
    decreases count,
{
    if count > 0 {
        lemma_row_values_flat_uniform(rows, start, count - 1, cols);
        assert((count - 1) * cols + cols == count * cols) by (nonlinear_arith);
    } else {
        assert(0 * cols == 0) by (nonlinear_arith);
    }
}

} // verus!
