//! The library-wide laws: agreement of the type mapper and the value
//! encoder, determinism of rendering, preservation of row and property
//! order, and the behavior of the unsupported-field policy.

use vstd::prelude::*;

use crate::atom::{batches_upto, edms_of, edms_upto, entry_doc_spec, feed_doc_spec, rows_upto};
use crate::calendar::{day_of_secs, in_day_range, split_secs};
use crate::edm::{edm_name_of, edm_of};
use crate::metadata::{meta_props_of, meta_props_upto};
use crate::types::{cell_matches, res_matches, CellValue, Field, FieldType, ODataError, RecordBatch};
use crate::value::cell_ok;

verus! {

/// Whether a temporal cell's stored value converts to a valid calendar
/// instant; vacuously true for non-temporal cells.
pub open spec fn temporal_in_range(ft: FieldType, c: CellValue) -> bool {
    match (ft, c) {
        (FieldType::Date32, CellValue::Int32(d)) => in_day_range(d as int),
        (FieldType::Date64, CellValue::Int64(ms)) => in_day_range((ms as int) / 86400000),
        (FieldType::Timestamp(unit, _), CellValue::Int64(v)) => in_day_range(
            day_of_secs(split_secs(v as int, unit).0),
        ),
        _ => true,
    }
}

/// The type mapper and the primitive value encoder agree: a cell encodes
/// successfully exactly when its field type is accepted by the mapper, the
/// cell is a present value of that type, and (for temporal types) its value
/// converts to a valid calendar instant.
pub proof fn lemma_mapper_encoder_agree(ft: FieldType, c: CellValue)
    ensures
        cell_ok(ft, c) ==> edm_of(ft) is Some,
        cell_ok(ft, c) <==> edm_of(ft) is Some && cell_matches(ft, c) && !(c matches
        CellValue::Null) && temporal_in_range(ft, c),
{
}

/// Rendering a feed is a pure function of schema, batches, context values
/// and timestamp: two renderings of the same tuple yield byte-identical
/// output, and fail identically when they fail.
pub proof fn lemma_feed_idempotent(
    r1: Result<String, ODataError>,
    r2: Result<String, ODataError>,
    fields: Seq<Field>,
    batches: Seq<RecordBatch>,
    svc: Seq<char>,
    coll: Seq<char>,
    name: Seq<char>,
    ns: Seq<char>,
    key: Seq<char>,
    warn: bool,
    ms: int,
)
    requires
        res_matches(r1, feed_doc_spec(fields, batches, svc, coll, name, ns, key, warn, ms)),
        res_matches(r2, feed_doc_spec(fields, batches, svc, coll, name, ns, key, warn, ms)),
    ensures
        r1 is Ok <==> r2 is Ok,
        r1 matches Ok(s1) ==> (r2 matches Ok(s2) && s1@ == s2@),
{
}

/// Rendering a single-entry document is equally a pure function of its
/// inputs: two renderings of the same tuple yield byte-identical output.
pub proof fn lemma_entry_idempotent(
    r1: Result<String, ODataError>,
    r2: Result<String, ODataError>,
    fields: Seq<Field>,
    batch: RecordBatch,
    svc: Seq<char>,
    coll: Seq<char>,
    name: Seq<char>,
    ns: Seq<char>,
    key: Seq<char>,
    warn: bool,
    ms: int,
)
    requires
        res_matches(r1, entry_doc_spec(fields, batch, svc, coll, name, ns, key, warn, ms)),
        res_matches(r2, entry_doc_spec(fields, batch, svc, coll, name, ns, key, warn, ms)),
    ensures
        r1 is Ok <==> r2 is Ok,
        r1 matches Ok(s1) ==> (r2 matches Ok(s2) && s1@ == s2@),
{
}

/// Prefixes of a successful resolution are successful.
proof fn lemma_edms_ok_prefix(fields: Seq<Field>, key: Seq<char>, warn: bool, m: int, n: int)
    requires
        0 <= m <= n,
        edms_upto(fields, key, warn, n) is Ok,
    ensures
        edms_upto(fields, key, warn, m) is Ok,
    decreases n,
{
    if m < n {
        lemma_edms_ok_prefix(fields, key, warn, m, n - 1);
    }
}

/// Property order preserves schema field order: the source column indices
/// of the resolved property list are strictly increasing.
pub proof fn lemma_property_order(fields: Seq<Field>, key: Seq<char>, warn: bool, n: int)
    requires
        edms_upto(fields, key, warn, n) is Ok,
    ensures
        forall|a: int, b: int|
            0 <= a < b < edms_upto(fields, key, warn, n)->Ok_0.len() ==> #[trigger] edms_upto(
                fields,
                key,
                warn,
                n,
            )->Ok_0[a].2 < #[trigger] edms_upto(fields, key, warn, n)->Ok_0[b].2,
    decreases n,
{
    if n > 0 {
        lemma_edms_ok_prefix(fields, key, warn, n - 1, n);
        lemma_property_order(fields, key, warn, n - 1);
        crate::atom::lemma_edms_bounds(fields, key, warn, n - 1);
    }
}

/// The list a successful resolution produces.
pub open spec fn edms_list(fields: Seq<Field>, key: Seq<char>, warn: bool, n: int) -> Seq<
    (Seq<char>, Seq<char>, int),
> {
    edms_upto(fields, key, warn, n)->Ok_0
}

/// What the resolved property list contains, exactly: each entry is a
/// supported non-key field carrying that field's tag and type name, and
/// every supported non-key field of the schema prefix appears. Together
/// with `lemma_property_order` this pins the emitted properties to the
/// schema, so the data documents and the metadata document cannot diverge:
/// both sides resolve fields through the one mapping table.
pub proof fn lemma_edms_members(fields: Seq<Field>, key: Seq<char>, warn: bool, n: int)
    requires
        0 <= n,
        edms_upto(fields, key, warn, n) is Ok,
    ensures
        forall|k: int|
            0 <= k < edms_list(fields, key, warn, n).len() ==> {
                let e = #[trigger] edms_list(fields, key, warn, n)[k];
                &&& 0 <= e.2 < n
                &&& fields[e.2].name@ != key
                &&& edm_of(fields[e.2].data_type) is Some
                &&& e.0 == "d:"@ + fields[e.2].name@
                &&& e.1 == edm_name_of(edm_of(fields[e.2].data_type)->Some_0)
            },
        forall|j: int|
            0 <= j < n && fields[j].name@ != key && edm_of(#[trigger] fields[j].data_type)
                is Some ==> exists|k: int|
                0 <= k < edms_list(fields, key, warn, n).len() && #[trigger] edms_list(
                    fields,
                    key,
                    warn,
                    n,
                )[k].2 == j,
    decreases n,
{
    if n > 0 {
        lemma_edms_members(fields, key, warn, n - 1);
        let l = edms_list(fields, key, warn, n);
        let prev = edms_list(fields, key, warn, n - 1);
        assert forall|j: int|
            0 <= j < n && fields[j].name@ != key && edm_of(#[trigger] fields[j].data_type)
                is Some implies exists|k: int|
            0 <= k < l.len() && #[trigger] l[k].2 == j by {
            if j < n - 1 {
                let k = choose|k: int| 0 <= k < prev.len() && #[trigger] prev[k].2 == j;
                assert(0 <= k < l.len() && l[k].2 == j);
            } else {
                assert(l[l.len() - 1].2 == j);
            }
        }
    }
}

/// The metadata document's property list, characterized the same way: each
/// advertised property is a supported field with its name, type name and
/// nullability, and every supported field is advertised.
pub proof fn lemma_meta_members(fields: Seq<Field>, warn: bool, n: int)
    requires
        0 <= n,
        meta_props_upto(fields, warn, n) is Ok,
    ensures
        forall|k: int|
            0 <= k < meta_props_upto(fields, warn, n)->Ok_0.len() ==> exists|j: int|
                0 <= j < n && edm_of(#[trigger] fields[j].data_type) is Some
                    && #[trigger] meta_props_upto(fields, warn, n)->Ok_0[k] == (
                fields[j].name@,
                edm_name_of(edm_of(fields[j].data_type)->Some_0),
                fields[j].nullable,
                ),
        forall|j: int|
            0 <= j < n && edm_of(#[trigger] fields[j].data_type) is Some ==> exists|k: int|
                0 <= k < meta_props_upto(fields, warn, n)->Ok_0.len()
                    && #[trigger] meta_props_upto(fields, warn, n)->Ok_0[k] == (
                fields[j].name@,
                edm_name_of(edm_of(fields[j].data_type)->Some_0),
                fields[j].nullable,
                ),
    decreases n,
{
    if n > 0 {
        lemma_meta_members(fields, warn, n - 1);
        let l = meta_props_upto(fields, warn, n)->Ok_0;
        let prev = meta_props_upto(fields, warn, n - 1)->Ok_0;
        assert forall|j: int|
            0 <= j < n && edm_of(#[trigger] fields[j].data_type) is Some implies exists|k: int|
            0 <= k < l.len() && #[trigger] l[k] == (
                fields[j].name@,
                edm_name_of(edm_of(fields[j].data_type)->Some_0),
                fields[j].nullable,
            ) by {
            if j < n - 1 {
                let k = choose|k: int|
                    0 <= k < prev.len() && #[trigger] prev[k] == (
                        fields[j].name@,
                        edm_name_of(edm_of(fields[j].data_type)->Some_0),
                        fields[j].nullable,
                    );
                assert(l[k] == (
                    fields[j].name@,
                    edm_name_of(edm_of(fields[j].data_type)->Some_0),
                    fields[j].nullable,
                ));
            } else {
                assert(l[l.len() - 1] == (
                    fields[j].name@,
                    edm_name_of(edm_of(fields[j].data_type)->Some_0),
                    fields[j].nullable,
                ));
            }
        }
        assert forall|k: int| 0 <= k < l.len() implies exists|j: int|
            0 <= j < n && edm_of(#[trigger] fields[j].data_type) is Some && #[trigger] l[k] == (
                fields[j].name@,
                edm_name_of(edm_of(fields[j].data_type)->Some_0),
                fields[j].nullable,
            ) by {
            if k < prev.len() {
                let j = choose|j: int|
                    0 <= j < n - 1 && edm_of(#[trigger] fields[j].data_type) is Some
                        && #[trigger] prev[k] == (
                        fields[j].name@,
                        edm_name_of(edm_of(fields[j].data_type)->Some_0),
                        fields[j].nullable,
                    );
                assert(l[k] == prev[k]);
            } else {
                assert(edm_of(fields[n - 1].data_type) is Some && l[k] == (
                    fields[n - 1].name@,
                    edm_name_of(edm_of(fields[n - 1].data_type)->Some_0),
                    fields[n - 1].nullable,
                ));
            }
        }
    }
}

/// Rendering a batch prefix depends only on the batches in it.
proof fn lemma_batches_agree(
    fields: Seq<Field>,
    edms: Seq<(Seq<char>, Seq<char>, int)>,
    ki: int,
    a: Seq<RecordBatch>,
    b: Seq<RecordBatch>,
    coll: Seq<char>,
    name: Seq<char>,
    fq: Seq<char>,
    upd: Seq<char>,
    n: int,
)
    requires
        forall|k: int| 0 <= k < n ==> a[k] == b[k],
    ensures
        batches_upto(fields, edms, ki, a, coll, name, fq, upd, n) == batches_upto(
            fields,
            edms,
            ki,
            b,
            coll,
            name,
            fq,
            upd,
            n,
        ),
    decreases n,
{
    if n > 0 {
        lemma_batches_agree(fields, edms, ki, a, b, coll, name, fq, upd, n - 1);
    }
}

/// Feed entry order preserves input row order across concatenated batches:
/// the body rendered for `bs1 + bs2` is the body for `bs1` followed by the
/// body for `bs2`.
pub proof fn lemma_feed_order_concat(
    fields: Seq<Field>,
    edms: Seq<(Seq<char>, Seq<char>, int)>,
    ki: int,
    bs1: Seq<RecordBatch>,
    bs2: Seq<RecordBatch>,
    coll: Seq<char>,
    name: Seq<char>,
    fq: Seq<char>,
    upd: Seq<char>,
    n2: int,
)
    requires
        0 <= n2 <= bs2.len(),
        batches_upto(fields, edms, ki, bs1, coll, name, fq, upd, bs1.len() as int) is Ok,
        batches_upto(fields, edms, ki, bs2, coll, name, fq, upd, n2) is Ok,
    ensures
        batches_upto(fields, edms, ki, bs1 + bs2, coll, name, fq, upd, bs1.len() + n2) == Ok::<
            Seq<char>,
            FieldType,
        >(
            batches_upto(fields, edms, ki, bs1, coll, name, fq, upd, bs1.len() as int)->Ok_0
                + batches_upto(fields, edms, ki, bs2, coll, name, fq, upd, n2)->Ok_0,
        ),
    decreases n2,
{
    if n2 == 0 {
        assert(forall|k: int| 0 <= k < bs1.len() ==> (bs1 + bs2)[k] == bs1[k]);
        lemma_batches_agree(
            fields,
            edms,
            ki,
            bs1 + bs2,
            bs1,
            coll,
            name,
            fq,
            upd,
            bs1.len() as int,
        );
        assert(batches_upto(fields, edms, ki, bs1, coll, name, fq, upd, bs1.len() as int)->Ok_0
            + batches_upto(fields, edms, ki, bs2, coll, name, fq, upd, 0)->Ok_0 =~= batches_upto(
            fields,
            edms,
            ki,
            bs1,
            coll,
            name,
            fq,
            upd,
            bs1.len() as int,
        )->Ok_0);
    } else {
        lemma_batches_ok_prefix(fields, edms, ki, bs2, coll, name, fq, upd, n2 - 1, n2);
        lemma_feed_order_concat(fields, edms, ki, bs1, bs2, coll, name, fq, upd, n2 - 1);
        assert((bs1 + bs2)[bs1.len() + n2 - 1] == bs2[n2 - 1]);
        assert(batches_upto(fields, edms, ki, bs1, coll, name, fq, upd, bs1.len() as int)->Ok_0
            + batches_upto(fields, edms, ki, bs2, coll, name, fq, upd, n2)->Ok_0 =~= (batches_upto(
            fields,
            edms,
            ki,
            bs1,
            coll,
            name,
            fq,
            upd,
            bs1.len() as int,
        )->Ok_0 + batches_upto(fields, edms, ki, bs2, coll, name, fq, upd, n2 - 1)->Ok_0)
            + rows_upto(
            fields,
            edms,
            ki,
            bs2[n2 - 1],
            coll,
            name,
            fq,
            upd,
            crate::types::spec_num_rows(bs2[n2 - 1]) as int,
        )->Ok_0);
    }
}

/// The number of fields among the first `n` that are not the key column.
pub open spec fn count_nonkey(fields: Seq<Field>, key: Seq<char>, n: int) -> int
    decreases n,
{
    if n <= 0 {
        0
    } else {
        count_nonkey(fields, key, n - 1) + (if fields[n - 1].name@ == key {
            0int
        } else {
            1int
        })
    }
}

proof fn lemma_edms_warn_len(fields: Seq<Field>, key: Seq<char>, u: int, n: int)
    requires
        0 <= u < fields.len(),
        edm_of(fields[u].data_type) is None,
        fields[u].name@ != key,
        forall|k: int|
            0 <= k < fields.len() && k != u ==> edm_of(#[trigger] fields[k].data_type) is Some,
        0 <= n <= fields.len(),
    ensures
        edms_upto(fields, key, true, n) matches Ok(l) && l.len() == count_nonkey(fields, key, n) - (
        if u < n {
            1int
        } else {
            0int
        }),
    decreases n,
{
    if n > 0 {
        lemma_edms_warn_len(fields, key, u, n - 1);
    }
}

proof fn lemma_meta_warn_len(fields: Seq<Field>, u: int, n: int)
    requires
        0 <= u < fields.len(),
        edm_of(fields[u].data_type) is None,
        forall|k: int|
            0 <= k < fields.len() && k != u ==> edm_of(#[trigger] fields[k].data_type) is Some,
        0 <= n <= fields.len(),
    ensures
        meta_props_upto(fields, true, n) matches Ok(l) && l.len() == n - (
        if u < n {
            1int
        } else {
            0int
        }),
    decreases n,
{
    if n > 0 {
        lemma_meta_warn_len(fields, u, n - 1);
    }
}

/// With exactly one unsupported field among the schema's fields, and that
/// field not the key column: fail-fast rejects the whole resolution with
/// that field's type, in the entry properties and in the metadata document
/// alike; warn-and-skip resolves every other non-key field as an entry
/// property and advertises every other field in the metadata document, so
/// the two documents lose exactly the same field.
pub proof fn lemma_policy_behavior(fields: Seq<Field>, key: Seq<char>, u: int)
    requires
        0 <= u < fields.len(),
        edm_of(fields[u].data_type) is None,
        fields[u].name@ != key,
        forall|k: int|
            0 <= k < fields.len() && k != u ==> edm_of(#[trigger] fields[k].data_type) is Some,
    ensures
        edms_of(fields, key, false) == Err::<Seq<(Seq<char>, Seq<char>, int)>, FieldType>(
            fields[u].data_type,
        ),
        meta_props_of(fields, false) == Err::<Seq<(Seq<char>, Seq<char>, bool)>, FieldType>(
            fields[u].data_type,
        ),
        edms_of(fields, key, true) matches Ok(l) && l.len() == count_nonkey(
            fields,
            key,
            fields.len() as int,
        ) - 1,
        meta_props_of(fields, true) matches Ok(m) && m.len() == fields.len() - 1,
{
    lemma_edms_warn_len(fields, key, u, u);
    assert(edms_upto(fields, key, true, u) is Ok);
    lemma_edms_all_supported_ok(fields, key, u);
    crate::atom::lemma_edms_err_sticky(fields, key, false, u, fields.len() as int);
    lemma_meta_all_supported_ok(fields, u);
    crate::metadata::lemma_meta_props_err_sticky(fields, false, u, fields.len() as int);
    lemma_edms_warn_len(fields, key, u, fields.len() as int);
    lemma_meta_warn_len(fields, u, fields.len() as int);
}

/// A prefix in which every non-key field is supported resolves successfully
/// under fail-fast.
proof fn lemma_edms_all_supported_ok(fields: Seq<Field>, key: Seq<char>, n: int)
    requires
        0 <= n <= fields.len(),
        forall|k: int|
            0 <= k < n ==> fields[k].name@ == key || edm_of(#[trigger] fields[k].data_type)
                is Some,
    ensures
        edms_upto(fields, key, false, n) is Ok,
    decreases n,
{
    if n > 0 {
        lemma_edms_all_supported_ok(fields, key, n - 1);
    }
}

/// A prefix in which every field is supported is advertised successfully
/// under fail-fast.
proof fn lemma_meta_all_supported_ok(fields: Seq<Field>, n: int)
    requires
        0 <= n <= fields.len(),
        forall|k: int| 0 <= k < n ==> edm_of(#[trigger] fields[k].data_type) is Some,
    ensures
        meta_props_upto(fields, false, n) is Ok,
    decreases n,
{
    if n > 0 {
        lemma_meta_all_supported_ok(fields, n - 1);
    }
}

/// Prefixes of a successful batch rendering are successful.
proof fn lemma_batches_ok_prefix(
    fields: Seq<Field>,
    edms: Seq<(Seq<char>, Seq<char>, int)>,
    ki: int,
    bs: Seq<RecordBatch>,
    coll: Seq<char>,
    name: Seq<char>,
    fq: Seq<char>,
    upd: Seq<char>,
    m: int,
    n: int,
)
    requires
        0 <= m <= n,
        batches_upto(fields, edms, ki, bs, coll, name, fq, upd, n) is Ok,
    ensures
        batches_upto(fields, edms, ki, bs, coll, name, fq, upd, m) is Ok,
    decreases n,
{
    if m < n {
        lemma_batches_ok_prefix(fields, edms, ki, bs, coll, name, fq, upd, m, n - 1);
    }
}

} // verus!
