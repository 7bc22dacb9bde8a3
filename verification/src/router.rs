//! The request shaper: decides feed-vs-entry from the collection address,
//! enforces the single-row contract for keyed addresses, and maps the
//! zero-row case to a not-found outcome with no body.

use vstd::prelude::*;

use crate::atom::{
    entry_doc_spec, feed_doc_spec, write_atom_entry_from_record, write_atom_feed_from_records,
};
use crate::calendar::{day_of_secs, in_day_range};
use crate::types::{
    err_matches, key_exists, spec_num_rows, wf_batches, CollectionContext, ODataError,
    OnUnsupported, RecordBatch, Schema,
};

verus! {

/// The externally visible outcome of a collection request.
#[derive(Debug)]
pub enum CollectionResponse {
    /// A complete feed document.
    Feed(String),
    /// A complete single-entry document.
    Entry(String),
    /// A keyed address whose query returned no row: an empty body.
    NotFound,
}

/// The total number of rows across a run of batches.
pub open spec fn spec_total_rows(batches: Seq<RecordBatch>) -> nat
    decreases batches.len(),
{
    if batches.len() == 0 {
        0
    } else {
        spec_total_rows(batches.drop_last()) + spec_num_rows(batches.last())
    }
}

/// A keyed address must resolve to at most one batch holding at most one
/// row; anything more is an internal invariant breach on the engine's side,
/// never a client-facing outcome.
pub open spec fn keyed_contract_violated(batches: Seq<RecordBatch>) -> bool {
    batches.len() > 1 || spec_total_rows(batches) > 1
}

/// What a keyed engine result is: an internal contract violation whenever
/// more than one row or batch came back — never silently truncated to one
/// row — a single renderable row exactly when one batch holds one row, and
/// a not-found outcome otherwise.
#[derive(Debug, PartialEq, Eq, Structural)]
pub enum KeyedOutcome {
    /// Exactly one batch with exactly one row: render the entry.
    Single,
    /// No row came back: an empty not-found response.
    NotFound,
    /// More than one row or batch: an invariant breach the caller must fail
    /// on, as an assertion failure, not any document.
    ContractViolation,
}

/// Classifies a keyed engine result. This is total: every result with more
/// than one row or batch is reported as the contract violation, so no input
/// can be silently truncated.
pub fn classify_keyed_result(record_batches: &Vec<RecordBatch>) -> (r: KeyedOutcome)
    ensures
        r == KeyedOutcome::ContractViolation <==> keyed_contract_violated(record_batches@),
        r == KeyedOutcome::Single <==> !keyed_contract_violated(record_batches@)
            && record_batches@.len() == 1 && spec_num_rows(record_batches@[0]) == 1,
        r == KeyedOutcome::NotFound <==> !keyed_contract_violated(record_batches@) && (
        record_batches@.len() == 0 || spec_num_rows(record_batches@[0]) == 0),
{
    if record_batches.len() > 1 {
        return KeyedOutcome::ContractViolation;
    }
    if record_batches.len() == 0 {
        proof {
            assert(record_batches@ =~= Seq::<RecordBatch>::empty());
        }
        return KeyedOutcome::NotFound;
    }
    let nrows = record_batches[0].num_rows();
    proof {
        assert(record_batches@.drop_last() =~= Seq::<RecordBatch>::empty());
        assert(spec_total_rows(Seq::<RecordBatch>::empty()) == 0);
        assert(spec_total_rows(record_batches@) == spec_num_rows(record_batches@[0]));
    }
    if nrows > 1 {
        KeyedOutcome::ContractViolation
    } else if nrows == 1 {
        KeyedOutcome::Single
    } else {
        KeyedOutcome::NotFound
    }
}

/// Routes a collection request: a keyless address renders all batches as a
/// feed; a keyed address renders the single available row as an entry, or a
/// not-found outcome when no row came back. A keyed result with more than
/// one row or batch is an internal contract violation
/// (`keyed_contract_violated`, reported by `classify_keyed_result`) and is
/// excluded by precondition: the caller asserts it and fails before
/// entering the core, so such a result is never truncated to a document.
pub fn route_collection_response(
    schema: &Schema,
    record_batches: &Vec<RecordBatch>,
    ctx: &CollectionContext,
    updated_ms: i64,
    keyed: bool,
) -> (r: Result<CollectionResponse, ODataError>)
    requires
        wf_batches(schema.fields@, record_batches@),
        key_exists(schema.fields@, ctx.key_column_name@),
        in_day_range(day_of_secs((updated_ms as int) / 1000)),
        keyed ==> !keyed_contract_violated(record_batches@),
    ensures
        !keyed ==> (match r {
            Ok(c) => c matches CollectionResponse::Feed(s) && feed_doc_spec(
                schema.fields@,
                record_batches@,
                ctx.service_base_url@,
                ctx.collection_base_url@,
                ctx.collection_name@,
                ctx.collection_namespace@,
                ctx.key_column_name@,
                ctx.on_unsupported == OnUnsupported::Warn,
                updated_ms as int,
            ) matches Ok(t) && s@ == t,
            Err(e) => feed_doc_spec(
                schema.fields@,
                record_batches@,
                ctx.service_base_url@,
                ctx.collection_base_url@,
                ctx.collection_name@,
                ctx.collection_namespace@,
                ctx.key_column_name@,
                ctx.on_unsupported == OnUnsupported::Warn,
                updated_ms as int,
            ) matches Err(v) && err_matches(e, v),
        }),
        keyed && (record_batches@.len() == 0 || spec_num_rows(record_batches@[0]) == 0) ==> (r
            matches Ok(c) && c is NotFound),
        keyed && record_batches@.len() == 1 && spec_num_rows(record_batches@[0]) == 1 ==> (match r {
            Ok(c) => c matches CollectionResponse::Entry(s) && entry_doc_spec(
                schema.fields@,
                record_batches@[0],
                ctx.service_base_url@,
                ctx.collection_base_url@,
                ctx.collection_name@,
                ctx.collection_namespace@,
                ctx.key_column_name@,
                ctx.on_unsupported == OnUnsupported::Warn,
                updated_ms as int,
            ) matches Ok(t) && s@ == t,
            Err(e) => entry_doc_spec(
                schema.fields@,
                record_batches@[0],
                ctx.service_base_url@,
                ctx.collection_base_url@,
                ctx.collection_name@,
                ctx.collection_namespace@,
                ctx.key_column_name@,
                ctx.on_unsupported == OnUnsupported::Warn,
                updated_ms as int,
            ) matches Err(v) && err_matches(e, v),
        }),
{
    if !keyed {
        match write_atom_feed_from_records(schema, record_batches, ctx, updated_ms) {
            Ok(doc) => Ok(CollectionResponse::Feed(doc)),
            Err(e) => Err(e),
        }
    } else {
        proof {
            if record_batches@.len() == 1 {
                assert(record_batches@.drop_last() =~= Seq::<RecordBatch>::empty());
                assert(spec_total_rows(Seq::<RecordBatch>::empty()) == 0);
                assert(spec_total_rows(record_batches@) == spec_num_rows(record_batches@[0]));
            }
        }
        let empty = if record_batches.len() != 1 {
            true
        } else {
            let nrows = record_batches[0].num_rows();
            nrows != 1
        };
        if empty {
            Ok(CollectionResponse::NotFound)
        } else {
            match write_atom_entry_from_record(schema, &record_batches[0], ctx, updated_ms) {
                Ok(doc) => Ok(CollectionResponse::Entry(doc)),
                Err(e) => Err(e),
            }
        }
    }
}

} // verus!
