//! Statements as callers write them, and how they become wire requests.
use vstd::prelude::*;

use crate::wire::{batch_steps, new_stmt};
use hrana_client_proto::{Batch, Stmt, Value};

verus! {

/// One SQL command with its positional parameter values.
pub struct Statement {
    pub sql: String,
    pub args: Vec<Value>,
}

impl Statement {
    /// A statement with no parameters.
    pub fn from_sql(sql: String) -> (r: Statement)
        ensures
            r.sql == sql,
            r.args@.len() == 0,
    {
        Statement { sql, args: Vec::new() }
    }

    /// A statement with the given positional parameters, in order.
    pub fn with_args(sql: String, args: Vec<Value>) -> (r: Statement)
        ensures
            r.sql == sql,
            r.args == args,
    {
        Statement { sql, args }
    }
}

/// The wire statement that `s` stands for: its text as it is, its values bound
/// in order, no named values, and column names asked for.
pub open spec fn is_wire_of(w: Stmt, s: Statement) -> bool {
    &&& w.sql == s.sql
    &&& w.args@ == s.args@
    &&& w.named_args@.len() == 0
    &&& w.want_rows
}

/// Builds the wire statement for `stmt`.
pub fn build_stmt(stmt: Statement) -> (r: Stmt)
    ensures
        is_wire_of(r, stmt),
{
    let ghost args = stmt.args@;
    let mut wire = new_stmt(stmt.sql, true);
    for param in it: stmt.args.into_iter()
        invariant
            it.seq() == args,
            wire.args@ == args.take(it.index() as int),
            wire.sql == stmt.sql,
            wire.named_args@.len() == 0,
            wire.want_rows,
    {
        wire.bind(param);
    }
    assert(wire.args@ =~= args);
    wire
}

/// The batch that `stmts` stand for: one unconditional step for each
/// statement, in the same order, each the wire form of its statement.
pub open spec fn is_batch_of(b: Batch, stmts: Seq<Statement>) -> bool {
    &&& batch_steps(b).len() == stmts.len()
    &&& forall|i: int|
        0 <= i < stmts.len() ==> {
            &&& (#[trigger] batch_steps(b)[i]).0.is_none()
            &&& is_wire_of(batch_steps(b)[i].1, stmts[i])
        }
}

/// Builds the batch for `stmts`: every step runs, whatever came of the
/// steps before it.
pub fn build_batch(stmts: Vec<Statement>) -> (r: Batch)
    ensures
        is_batch_of(r, stmts@),
{
    let ghost all = stmts@;
    let mut batch = Batch::new();
    for stmt in it: stmts.into_iter()
        invariant
            it.seq() == all,
            is_batch_of(batch, all.take(it.index() as int)),
    {
        let ghost s = stmt;
        let wire = build_stmt(stmt);
        batch.step(None, wire);
        assert(all.take(it.index() + 1 as int) =~= all.take(it.index() as int).push(s));
    }
    assert(all.take(all.len() as int) =~= all);
    batch
}

} // verus!
