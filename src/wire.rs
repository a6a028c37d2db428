//! The wire types of the hrana protocol that this library builds, as the
//! protocol crate defines them, with the contracts of the calls made on them.
use vstd::prelude::*;

verus! {

/// A parameter value on the wire; carried through, never inspected.
#[verifier::external_type_specification]
#[verifier::external_body]
pub struct ExValue(hrana_client_proto::Value);

/// A condition that gates a batch step.
#[verifier::external_type_specification]
#[verifier::external_body]
pub struct ExBatchCond(hrana_client_proto::BatchCond);

/// A named parameter of a statement.
#[verifier::external_type_specification]
pub struct ExNamedArg(hrana_client_proto::NamedArg);

/// A statement on the wire: its fields are public in the protocol crate.
#[verifier::external_type_specification]
pub struct ExStmt(hrana_client_proto::Stmt);

/// A batch on the wire: its steps are private to the protocol crate.
#[verifier::external_type_specification]
#[verifier::external_body]
pub struct ExBatch(hrana_client_proto::Batch);

/// The steps that a batch holds, in order: each step's condition and statement.
pub uninterp spec fn batch_steps(b: hrana_client_proto::Batch) -> Seq<
    (Option<hrana_client_proto::BatchCond>, hrana_client_proto::Stmt),
>;

/// Relies on hrana_client_proto's `Batch::new`: a batch with no steps.
pub assume_specification[ hrana_client_proto::Batch::new ]() -> (r: hrana_client_proto::Batch)
    ensures
        batch_steps(r) == Seq::<(Option<hrana_client_proto::BatchCond>, hrana_client_proto::Stmt)>::empty(),
;

/// Relies on hrana_client_proto's `Batch::step`: the step is appended last.
pub assume_specification[ hrana_client_proto::Batch::step ](
    batch: &mut hrana_client_proto::Batch,
    condition: Option<hrana_client_proto::BatchCond>,
    stmt: hrana_client_proto::Stmt,
)
    ensures
        batch_steps(*final(batch)) == batch_steps(*old(batch)).push((condition, stmt)),
;

/// Relies on hrana_client_proto's `Stmt::bind`: the value is appended to the
/// positional arguments, and nothing else changes.
pub assume_specification[ hrana_client_proto::Stmt::bind ](
    stmt: &mut hrana_client_proto::Stmt,
    val: hrana_client_proto::Value,
)
    ensures
        final(stmt).args@ == old(stmt).args@.push(val),
        final(stmt).sql == old(stmt).sql,
        final(stmt).named_args == old(stmt).named_args,
        final(stmt).want_rows == old(stmt).want_rows,
;

/// Relies on hrana_client_proto's `Stmt::new`: the given text and flag, and
/// no arguments yet.
#[verifier::external_body]
pub(crate) fn new_stmt(sql: String, want_rows: bool) -> (r: hrana_client_proto::Stmt)
    ensures
        r.sql == sql,
        r.args@.len() == 0,
        r.named_args@.len() == 0,
        r.want_rows == want_rows,
{
    hrana_client_proto::Stmt::new(sql, want_rows)
}

} // verus!
