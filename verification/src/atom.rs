//! The Atom document encoder: renders a batch of rows as a feed, or a
//! single row as an entry, with every character of the output stated by the
//! document spec functions.

use vstd::prelude::*;

use crate::calendar::{day_of_secs, encode_updated, in_day_range, updated_text};
use crate::edm::{edm_name_of, edm_of, edm_type_name, to_edm_type};
use crate::escape::{escape_of, push_escaped};
use crate::types::{
    key_exists, key_index, key_index_val, lemma_key_exists_some, res_matches, spec_num_rows,
    wf_batch, wf_batches, CellValue, CollectionContext, ErrV, Field, FieldType, ODataError,
    OnUnsupported, RecordBatch, Schema, UnsupportedDataType,
};
use crate::url::{
    has_http_scheme, normalize_collection_base_url, normalize_service_base_url,
    with_trailing_slash, without_trailing_slash,
};
use crate::value::{cell_ok, cell_text, encode_primitive_dyn};

verus! {

/// A resolved output property: the protocol type name and the property tag.
pub struct Edm {
    pub typ: String,
    pub tag: String,
}

impl Edm {
    /// Resolves one field: the data-namespace tag carrying the field name
    /// and the wire-level name of its protocol type.
    pub fn from_field(field: &Field) -> (r: Result<Edm, UnsupportedDataType>)
        ensures
            match edm_of(field.data_type) {
                Some(t) => r matches Ok(e) && e.tag@ == "d:"@ + field.name@ && e.typ@
                    == edm_name_of(t),
                None => r matches Err(u) && u.data_type == field.data_type,
            },
    {
        let t = match to_edm_type(field.data_type) {
            Ok(t) => t,
            Err(u) => {
                return Err(u);
            },
        };
        let mut tag = "d:".to_owned();
        tag.append(field.name.as_str());
        Ok(Edm { typ: edm_type_name(t), tag })
    }
}

/// The spec-level image of a resolved property list: tag text, type name,
/// source column index.
pub open spec fn edms_view(s: Seq<(Edm, usize)>) -> Seq<(Seq<char>, Seq<char>, int)> {
    Seq::new(s.len(), |i: int| (s[i].0.tag@, s[i].0.typ@, s[i].1 as int))
}

/// The resolved properties of the first `n` fields: the key column is
/// skipped, an unsupported field aborts under fail-fast and is omitted under
/// warn-and-skip.
pub open spec fn edms_upto(fields: Seq<Field>, key: Seq<char>, warn: bool, n: int) -> Result<
    Seq<(Seq<char>, Seq<char>, int)>,
    FieldType,
>
    decreases n,
{
    if n <= 0 {
        Ok(Seq::empty())
    } else {
        match edms_upto(fields, key, warn, n - 1) {
            Err(ft) => Err(ft),
            Ok(l) => {
                if fields[n - 1].name@ == key {
                    Ok(l)
                } else {
                    match edm_of(fields[n - 1].data_type) {
                        Some(t) => Ok(
                            l.push(("d:"@ + fields[n - 1].name@, edm_name_of(t), n - 1)),
                        ),
                        None => if warn {
                            Ok(l)
                        } else {
                            Err(fields[n - 1].data_type)
                        },
                    }
                }
            },
        }
    }
}

/// The resolved properties of a whole schema.
pub open spec fn edms_of(fields: Seq<Field>, key: Seq<char>, warn: bool) -> Result<
    Seq<(Seq<char>, Seq<char>, int)>,
    FieldType,
> {
    edms_upto(fields, key, warn, fields.len() as int)
}

/// Once field `j` fails to resolve under fail-fast, the whole resolution
/// fails with that field's type.
pub proof fn lemma_edms_err_sticky(fields: Seq<Field>, key: Seq<char>, warn: bool, j: int, n: int)
    requires
        0 <= j < n,
        edms_upto(fields, key, warn, j) is Ok,
        fields[j].name@ != key,
        edm_of(fields[j].data_type) is None,
        !warn,
    ensures
        edms_upto(fields, key, warn, n) == Err::<Seq<(Seq<char>, Seq<char>, int)>, FieldType>(
            fields[j].data_type,
        ),
    decreases n,
{
    if n > j + 1 {
        lemma_edms_err_sticky(fields, key, warn, j, n - 1);
    }
}

/// Every resolved property points at a field of the schema prefix it came
/// from.
pub proof fn lemma_edms_bounds(fields: Seq<Field>, key: Seq<char>, warn: bool, n: int)
    requires
        edms_upto(fields, key, warn, n) is Ok,
    ensures
        forall|k: int|
            0 <= k < edms_upto(fields, key, warn, n)->Ok_0.len() ==> 0 <= #[trigger] edms_upto(
                fields,
                key,
                warn,
                n,
            )->Ok_0[k].2 < n,
    decreases n,
{
    if n > 0 {
        lemma_edms_err_sticky_helper(fields, key, warn, n);
        lemma_edms_bounds(fields, key, warn, n - 1);
    }
}

/// An error in a prefix persists: if resolution through `n - 1` failed, so
/// does resolution through `n`; contrapositive used to walk prefixes.
proof fn lemma_edms_err_sticky_helper(fields: Seq<Field>, key: Seq<char>, warn: bool, n: int)
    requires
        n > 0,
        edms_upto(fields, key, warn, n) is Ok,
    ensures
        edms_upto(fields, key, warn, n - 1) is Ok,
{
}

/// Resolves, via the type mapper and the unsupported-field policy, the
/// ordered property list for every field except the key column, and locates
/// the key column's index (the last field of that name, if any).
pub fn to_edms(schema: &Schema, key_column: &String, on_unsupported: OnUnsupported) -> (r: Result<
    (Vec<(Edm, usize)>, Option<usize>),
    UnsupportedDataType,
>)
    ensures
        match r {
            Ok(p) => {
                &&& edms_of(
                    schema.fields@,
                    key_column@,
                    on_unsupported == OnUnsupported::Warn,
                ) matches Ok(l) && edms_view(p.0@) == l
                &&& match (p.1, key_index(schema.fields@, key_column@)) {
                    (Some(k), Some(i)) => k as int == i,
                    (None, None) => true,
                    _ => false,
                }
            },
            Err(u) => edms_of(
                schema.fields@,
                key_column@,
                on_unsupported == OnUnsupported::Warn,
            ) matches Err(ft) && u.data_type == ft,
        },
{
    let ghost fields = schema.fields@;
    let ghost key = key_column@;
    let ghost warn = on_unsupported == OnUnsupported::Warn;
    let mut edms: Vec<(Edm, usize)> = Vec::new();
    let mut key_idx: Option<usize> = None;
    let n = schema.fields.len();
    let mut i: usize = 0;
    while i < n
        invariant
            n == fields.len(),
            i <= n,
            fields == schema.fields@,
            key == key_column@,
            warn == (on_unsupported == OnUnsupported::Warn),
            edms_upto(fields, key, warn, i as int) matches Ok(l) && edms_view(edms@) == l,
            match (key_idx, crate::types::key_index_upto(fields, key, i as int)) {
                (Some(k), Some(j)) => k as int == j,
                (None, None) => true,
                _ => false,
            },
        decreases n - i,
    {
        let field = &schema.fields[i];
        if field.name == *key_column {
            key_idx = Some(i);
        } else {
            match Edm::from_field(field) {
                Ok(edm) => {
                    let ghost prev = edms@;
                    edms.push((edm, i));
                    proof {
                        assert(edms_view(edms@) =~= edms_view(prev).push(
                            (edms@[edms@.len() - 1].0.tag@, edms@[edms@.len() - 1].0.typ@, i as int),
                        ));
                    }
                },
                Err(err) => {
                    match on_unsupported {
                        OnUnsupported::Error => {
                            proof {
                                lemma_edms_err_sticky(fields, key, warn, i as int, n as int);
                            }
                            return Err(err);
                        },
                        OnUnsupported::Warn => {},
                    }
                },
            }
        }
        i = i + 1;
    }
    Ok((edms, key_idx))
}

/// The document prologue.
pub open spec fn xml_decl() -> Seq<char> {
    "<?xml version=\"1.0\" encoding=\"utf-8\"?>"@
}

/// The feed root element with its base URL and the three required namespace
/// declarations.
pub open spec fn feed_open_xml(svc: Seq<char>) -> Seq<char> {
    "<feed xml:base=\""@ + escape_of(svc)
        + "\" xmlns=\"http://www.w3.org/2005/Atom\" xmlns:d=\"http://schemas.microsoft.com/ado/2007/08/dataservices\" xmlns:m=\"http://schemas.microsoft.com/ado/2007/08/dataservices/metadata\">"@
}

/// The entry root element of a single-entry document, with the same
/// attributes as a feed root.
pub open spec fn entry_open_xml(svc: Seq<char>) -> Seq<char> {
    "<entry xml:base=\""@ + escape_of(svc)
        + "\" xmlns=\"http://www.w3.org/2005/Atom\" xmlns:d=\"http://schemas.microsoft.com/ado/2007/08/dataservices\" xmlns:m=\"http://schemas.microsoft.com/ado/2007/08/dataservices/metadata\">"@
}

/// The feed-level identity, title, update-time and self-link elements.
pub open spec fn feed_meta_xml(coll: Seq<char>, name: Seq<char>, upd: Seq<char>) -> Seq<char> {
    "<id>"@ + escape_of(coll) + "</id><title type=\"text\">"@ + escape_of(name)
        + "</title><updated>"@ + upd + "</updated><link rel=\"self\" title=\""@ + escape_of(name)
        + "\" href=\""@ + escape_of(name) + "\"/>"@
}

/// The resource identifier a key cell encodes to: a null key or one that
/// encodes to empty text still yields a well-formed identifier.
pub open spec fn key_id_of(ft: FieldType, c: CellValue) -> Result<Seq<char>, FieldType> {
    match c {
        CellValue::Null => Ok(Seq::empty()),
        _ => if cell_ok(ft, c) {
            Ok(cell_text(ft, c))
        } else {
            Err(ft)
        },
    }
}

/// One property element: the tag in the data namespace, the protocol type as
/// a metadata-namespace attribute, and the encoded value as text content; a
/// null cell is an empty element with an explicit null marker instead.
pub open spec fn prop_xml(ft: FieldType, tag: Seq<char>, typ: Seq<char>, c: CellValue) -> Result<
    Seq<char>,
    FieldType,
> {
    match c {
        CellValue::Null => Ok("<"@ + tag + " m:type=\""@ + typ + "\" m:null=\"true\"/>"@),
        _ => if cell_ok(ft, c) {
            Ok("<"@ + tag + " m:type=\""@ + typ + "\">"@ + cell_text(ft, c) + "</"@ + tag + ">"@)
        } else {
            Err(ft)
        },
    }
}

/// The first `n` property elements of one row, in property order.
pub open spec fn props_upto(
    fields: Seq<Field>,
    edms: Seq<(Seq<char>, Seq<char>, int)>,
    b: RecordBatch,
    row: int,
    n: int,
) -> Result<Seq<char>, FieldType>
    decreases n,
{
    if n <= 0 {
        Ok(Seq::empty())
    } else {
        match props_upto(fields, edms, b, row, n - 1) {
            Err(ft) => Err(ft),
            Ok(txt) => match prop_xml(
                fields[edms[n - 1].2].data_type,
                edms[n - 1].0,
                edms[n - 1].1,
                b.columns@[edms[n - 1].2].cells@[row],
            ) {
                Ok(p) => Ok(txt + p),
                Err(ft) => Err(ft),
            },
        }
    }
}

/// All property elements of one row.
pub open spec fn props_xml(
    fields: Seq<Field>,
    edms: Seq<(Seq<char>, Seq<char>, int)>,
    b: RecordBatch,
    row: int,
) -> Result<Seq<char>, FieldType> {
    props_upto(fields, edms, b, row, edms.len() as int)
}

proof fn lemma_props_err_sticky(
    fields: Seq<Field>,
    edms: Seq<(Seq<char>, Seq<char>, int)>,
    b: RecordBatch,
    row: int,
    j: int,
    n: int,
)
    requires
        0 <= j < n,
        props_upto(fields, edms, b, row, j) is Ok,
        prop_xml(
            fields[edms[j].2].data_type,
            edms[j].0,
            edms[j].1,
            b.columns@[edms[j].2].cells@[row],
        ) matches Err(ft),
    ensures
        prop_xml(
            fields[edms[j].2].data_type,
            edms[j].0,
            edms[j].1,
            b.columns@[edms[j].2].cells@[row],
        ) matches Err(ft) && props_upto(fields, edms, b, row, n) == Err::<Seq<char>, FieldType>(ft),
    decreases n,
{
    if n > j + 1 {
        lemma_props_err_sticky(fields, edms, b, row, j, n - 1);
    }
}

/// The shared body of an entry: identity, category, edit-link, empty title,
/// update time, empty author, and the content block with the properties.
pub open spec fn entry_core_xml(
    coll: Seq<char>,
    name: Seq<char>,
    fq: Seq<char>,
    upd: Seq<char>,
    id: Seq<char>,
    props: Seq<char>,
) -> Seq<char> {
    "<id>"@ + escape_of(coll) + "("@ + id
        + ")</id><category scheme=\"http://schemas.microsoft.com/ado/2007/08/dataservices/scheme\" term=\""@
        + escape_of(fq) + "\"/><link rel=\"edit\" title=\""@ + escape_of(name) + "\" href=\""@
        + escape_of(name) + "("@ + id + ")\"/><title/><updated>"@ + upd
        + "</updated><author><name/></author><content type=\"application/xml\"><m:properties>"@
        + props + "</m:properties></content>"@
}

/// The body of the entry for one row: the key cell builds the resource
/// identifier, then the properties follow in order.
pub open spec fn row_core_xml(
    fields: Seq<Field>,
    edms: Seq<(Seq<char>, Seq<char>, int)>,
    ki: int,
    b: RecordBatch,
    row: int,
    coll: Seq<char>,
    name: Seq<char>,
    fq: Seq<char>,
    upd: Seq<char>,
) -> Result<Seq<char>, FieldType> {
    match key_id_of(fields[ki].data_type, b.columns@[ki].cells@[row]) {
        Err(ft) => Err(ft),
        Ok(id) => match props_xml(fields, edms, b, row) {
            Err(ft) => Err(ft),
            Ok(props) => Ok(entry_core_xml(coll, name, fq, upd, id, props)),
        },
    }
}

/// The entry elements of the first `n` rows of one batch, in row order.
pub open spec fn rows_upto(
    fields: Seq<Field>,
    edms: Seq<(Seq<char>, Seq<char>, int)>,
    ki: int,
    b: RecordBatch,
    coll: Seq<char>,
    name: Seq<char>,
    fq: Seq<char>,
    upd: Seq<char>,
    n: int,
) -> Result<Seq<char>, FieldType>
    decreases n,
{
    if n <= 0 {
        Ok(Seq::empty())
    } else {
        match rows_upto(fields, edms, ki, b, coll, name, fq, upd, n - 1) {
            Err(ft) => Err(ft),
            Ok(txt) => match row_core_xml(fields, edms, ki, b, n - 1, coll, name, fq, upd) {
                Err(ft) => Err(ft),
                Ok(core) => Ok(txt + ("<entry>"@ + core + "</entry>"@)),
            },
        }
    }
}

proof fn lemma_rows_err_sticky(
    fields: Seq<Field>,
    edms: Seq<(Seq<char>, Seq<char>, int)>,
    ki: int,
    b: RecordBatch,
    coll: Seq<char>,
    name: Seq<char>,
    fq: Seq<char>,
    upd: Seq<char>,
    j: int,
    n: int,
)
    requires
        0 <= j < n,
        rows_upto(fields, edms, ki, b, coll, name, fq, upd, j) is Ok,
        row_core_xml(fields, edms, ki, b, j, coll, name, fq, upd) matches Err(ft),
    ensures
        row_core_xml(fields, edms, ki, b, j, coll, name, fq, upd) matches Err(ft) && rows_upto(
            fields,
            edms,
            ki,
            b,
            coll,
            name,
            fq,
            upd,
            n,
        ) == Err::<Seq<char>, FieldType>(ft),
    decreases n,
{
    if n > j + 1 {
        lemma_rows_err_sticky(fields, edms, ki, b, coll, name, fq, upd, j, n - 1);
    }
}

/// The entry elements of the first `n` batches, concatenated in arrival
/// order.
pub open spec fn batches_upto(
    fields: Seq<Field>,
    edms: Seq<(Seq<char>, Seq<char>, int)>,
    ki: int,
    batches: Seq<RecordBatch>,
    coll: Seq<char>,
    name: Seq<char>,
    fq: Seq<char>,
    upd: Seq<char>,
    n: int,
) -> Result<Seq<char>, FieldType>
    decreases n,
{
    if n <= 0 {
        Ok(Seq::empty())
    } else {
        match batches_upto(fields, edms, ki, batches, coll, name, fq, upd, n - 1) {
            Err(ft) => Err(ft),
            Ok(txt) => match rows_upto(
                fields,
                edms,
                ki,
                batches[n - 1],
                coll,
                name,
                fq,
                upd,
                spec_num_rows(batches[n - 1]) as int,
            ) {
                Err(ft) => Err(ft),
                Ok(body) => Ok(txt + body),
            },
        }
    }
}

proof fn lemma_batches_err_sticky(
    fields: Seq<Field>,
    edms: Seq<(Seq<char>, Seq<char>, int)>,
    ki: int,
    batches: Seq<RecordBatch>,
    coll: Seq<char>,
    name: Seq<char>,
    fq: Seq<char>,
    upd: Seq<char>,
    j: int,
    n: int,
)
    requires
        0 <= j < n,
        batches_upto(fields, edms, ki, batches, coll, name, fq, upd, j) is Ok,
        rows_upto(
            fields,
            edms,
            ki,
            batches[j],
            coll,
            name,
            fq,
            upd,
            spec_num_rows(batches[j]) as int,
        ) matches Err(ft),
    ensures
        rows_upto(
            fields,
            edms,
            ki,
            batches[j],
            coll,
            name,
            fq,
            upd,
            spec_num_rows(batches[j]) as int,
        ) matches Err(ft) && batches_upto(fields, edms, ki, batches, coll, name, fq, upd, n)
            == Err::<Seq<char>, FieldType>(ft),
    decreases n,
{
    if n > j + 1 {
        lemma_batches_err_sticky(fields, edms, ki, batches, coll, name, fq, upd, j, n - 1);
    }
}

/// The complete feed document for a schema, batches and context, as of the
/// given last-modified time: the exact character content of a successful
/// rendering, or the error that aborts it.
pub open spec fn feed_doc_spec(
    fields: Seq<Field>,
    batches: Seq<RecordBatch>,
    svc_raw: Seq<char>,
    coll_raw: Seq<char>,
    name: Seq<char>,
    ns: Seq<char>,
    key: Seq<char>,
    warn: bool,
    ms: int,
) -> Result<Seq<char>, ErrV> {
    if !has_http_scheme(svc_raw) {
        Err(ErrV::BadUrl(svc_raw))
    } else if !has_http_scheme(coll_raw) {
        Err(ErrV::BadUrl(coll_raw))
    } else {
        let svc = with_trailing_slash(svc_raw);
        let coll = without_trailing_slash(coll_raw);
        let fq = ns + "."@ + name;
        let upd = updated_text(ms);
        match edms_of(fields, key, warn) {
            Err(ft) => Err(ErrV::Unsupported(ft)),
            Ok(edms) => match batches_upto(
                fields,
                edms,
                key_index_val(fields, key),
                batches,
                coll,
                name,
                fq,
                upd,
                batches.len() as int,
            ) {
                Err(ft) => Err(ErrV::Unsupported(ft)),
                Ok(body) => Ok(
                    xml_decl() + feed_open_xml(svc) + feed_meta_xml(coll, name, upd) + body
                        + "</feed>"@,
                ),
            },
        }
    }
}

/// The complete single-entry document for the first row of a batch.
pub open spec fn entry_doc_spec(
    fields: Seq<Field>,
    batch: RecordBatch,
    svc_raw: Seq<char>,
    coll_raw: Seq<char>,
    name: Seq<char>,
    ns: Seq<char>,
    key: Seq<char>,
    warn: bool,
    ms: int,
) -> Result<Seq<char>, ErrV> {
    if !has_http_scheme(svc_raw) {
        Err(ErrV::BadUrl(svc_raw))
    } else if !has_http_scheme(coll_raw) {
        Err(ErrV::BadUrl(coll_raw))
    } else {
        let svc = with_trailing_slash(svc_raw);
        let coll = without_trailing_slash(coll_raw);
        let fq = ns + "."@ + name;
        let upd = updated_text(ms);
        match edms_of(fields, key, warn) {
            Err(ft) => Err(ErrV::Unsupported(ft)),
            Ok(edms) => match row_core_xml(
                fields,
                edms,
                key_index_val(fields, key),
                batch,
                0,
                coll,
                name,
                fq,
                upd,
            ) {
                Err(ft) => Err(ErrV::Unsupported(ft)),
                Ok(core) => Ok(xml_decl() + entry_open_xml(svc) + core + "</entry>"@),
            },
        }
    }
}

/// Encodes the entry body for one row: the key cell yields the resource
/// identifier, then one property element per resolved property.
fn encode_row_core(
    schema: &Schema,
    edms: &Vec<(Edm, usize)>,
    ki: usize,
    batch: &RecordBatch,
    row: usize,
    coll: &String,
    name: &String,
    fq: &String,
    upd: &String,
) -> (r: Result<String, UnsupportedDataType>)
    requires
        wf_batch(schema.fields@, *batch),
        row < spec_num_rows(*batch),
        ki < schema.fields@.len(),
        forall|k: int| 0 <= k < edms@.len() ==> #[trigger] edms@[k].1 < schema.fields@.len(),
    ensures
        match r {
            Ok(s) => row_core_xml(
                schema.fields@,
                edms_view(edms@),
                ki as int,
                *batch,
                row as int,
                coll@,
                name@,
                fq@,
                upd@,
            ) matches Ok(t) && s@ == t,
            Err(u) => row_core_xml(
                schema.fields@,
                edms_view(edms@),
                ki as int,
                *batch,
                row as int,
                coll@,
                name@,
                fq@,
                upd@,
            ) matches Err(ft) && u.data_type == ft,
        },
{
    let ghost fields = schema.fields@;
    let ghost ev = edms_view(edms@);
    let kcell = &batch.columns[ki].cells[row];
    let id: String = match kcell {
        CellValue::Null => String::new(),
        _ => {
            match encode_primitive_dyn(schema.fields[ki].data_type, kcell) {
                Ok(s) => s,
                Err(u) => {
                    return Err(u);
                },
            }
        },
    };
    proof {
        assert(key_id_of(fields[ki as int].data_type, batch.columns@[ki as int].cells@[row as int])
            matches Ok(t) && id@ == t);
    }
    let mut props = String::new();
    let n = edms.len();
    let mut j: usize = 0;
    while j < n
        invariant
            n == edms@.len(),
            j <= n,
            fields == schema.fields@,
            ev == edms_view(edms@),
            wf_batch(fields, *batch),
            row < spec_num_rows(*batch),
            ki < fields.len(),
            forall|k: int| 0 <= k < edms@.len() ==> #[trigger] edms@[k].1 < fields.len(),
            key_id_of(fields[ki as int].data_type, batch.columns@[ki as int].cells@[row as int])
                matches Ok(t) && id@ == t,
            props_upto(fields, ev, *batch, row as int, j as int) matches Ok(t2) && props@ == t2,
        decreases n - j,
    {
        let idx = edms[j].1;
        let cell = &batch.columns[idx].cells[row];
        let ghost prev = props@;
        match cell {
            CellValue::Null => {
                props.append("<");
                props.append(edms[j].0.tag.as_str());
                props.append(" m:type=\"");
                props.append(edms[j].0.typ.as_str());
                props.append("\" m:null=\"true\"/>");
                proof {
                    assert(props@ =~= prev + prop_xml(
                        fields[ev[j as int].2].data_type,
                        ev[j as int].0,
                        ev[j as int].1,
                        batch.columns@[ev[j as int].2].cells@[row as int],
                    )->Ok_0);
                }
            },
            _ => {
                match encode_primitive_dyn(schema.fields[idx].data_type, cell) {
                    Ok(v) => {
                        props.append("<");
                        props.append(edms[j].0.tag.as_str());
                        props.append(" m:type=\"");
                        props.append(edms[j].0.typ.as_str());
                        props.append("\">");
                        props.append(v.as_str());
                        props.append("</");
                        props.append(edms[j].0.tag.as_str());
                        props.append(">");
                        proof {
                            assert(props@ =~= prev + prop_xml(
                                fields[ev[j as int].2].data_type,
                                ev[j as int].0,
                                ev[j as int].1,
                                batch.columns@[ev[j as int].2].cells@[row as int],
                            )->Ok_0);
                        }
                    },
                    Err(u) => {
                        proof {
                            assert(ev[j as int].2 == edms@[j as int].1 as int);
                            assert(prop_xml(
                                fields[ev[j as int].2].data_type,
                                ev[j as int].0,
                                ev[j as int].1,
                                batch.columns@[ev[j as int].2].cells@[row as int],
                            ) matches Err(ft) && ft == u.data_type);
                            lemma_props_err_sticky(
                                fields,
                                ev,
                                *batch,
                                row as int,
                                j as int,
                                ev.len() as int,
                            );
                            assert(props_xml(fields, ev, *batch, row as int) == Err::<
                                Seq<char>,
                                FieldType,
                            >(u.data_type));
                            assert(key_id_of(
                                fields[ki as int].data_type,
                                batch.columns@[ki as int].cells@[row as int],
                            ) is Ok);
                            assert(row_core_xml(
                                fields,
                                ev,
                                ki as int,
                                *batch,
                                row as int,
                                coll@,
                                name@,
                                fq@,
                                upd@,
                            ) == Err::<Seq<char>, FieldType>(u.data_type));
                        }
                        return Err(u);
                    },
                }
            },
        }
        proof {
            assert(props_upto(fields, ev, *batch, row as int, j + 1) matches Ok(t) && props@ == t);
        }
        j = j + 1;
    }
    let mut out = "<id>".to_owned();
    push_escaped(&mut out, coll.as_str());
    out.append("(");
    out.append(id.as_str());
    out.append(
        ")</id><category scheme=\"http://schemas.microsoft.com/ado/2007/08/dataservices/scheme\" term=\"",
    );
    push_escaped(&mut out, fq.as_str());
    out.append("\"/><link rel=\"edit\" title=\"");
    push_escaped(&mut out, name.as_str());
    out.append("\" href=\"");
    push_escaped(&mut out, name.as_str());
    out.append("(");
    out.append(id.as_str());
    out.append(")\"/><title/><updated>");
    out.append(upd.as_str());
    out.append("</updated><author><name/></author><content type=\"application/xml\"><m:properties>");
    out.append(props.as_str());
    out.append("</m:properties></content>");
    proof {
        assert(out@ =~= entry_core_xml(coll@, name@, fq@, upd@, id@, props@));
    }
    Ok(out)
}

/// Renders a batch of rows as a complete Atom feed document: prologue, feed
/// root with base URL and namespaces, feed-level metadata, then one entry
/// per row of every batch in order.
#[verifier::rlimit(80)]
pub fn write_atom_feed_from_records(
    schema: &Schema,
    record_batches: &Vec<RecordBatch>,
    ctx: &CollectionContext,
    updated_ms: i64,
) -> (r: Result<String, ODataError>)
    requires
        wf_batches(schema.fields@, record_batches@),
        key_exists(schema.fields@, ctx.key_column_name@),
        in_day_range(day_of_secs((updated_ms as int) / 1000)),
    ensures
        res_matches(
            r,
            feed_doc_spec(
                schema.fields@,
                record_batches@,
                ctx.service_base_url@,
                ctx.collection_base_url@,
                ctx.collection_name@,
                ctx.collection_namespace@,
                ctx.key_column_name@,
                ctx.on_unsupported == OnUnsupported::Warn,
                updated_ms as int,
            ),
        ),
{
    let ghost fields = schema.fields@;
    let ghost key = ctx.key_column_name@;
    let ghost warn = ctx.on_unsupported == OnUnsupported::Warn;
    let svc = match normalize_service_base_url(ctx.service_base_url.as_str()) {
        Ok(u) => u,
        Err(e) => {
            return Err(e);
        },
    };
    let coll = match normalize_collection_base_url(ctx.collection_base_url.as_str()) {
        Ok(u) => u,
        Err(e) => {
            return Err(e);
        },
    };
    let (edms, key_opt) = match to_edms(schema, &ctx.key_column_name, ctx.on_unsupported) {
        Ok(p) => p,
        Err(u) => {
            return Err(ODataError::UnsupportedDataType(u));
        },
    };
    proof {
        lemma_key_exists_some(fields, key);
    }
    let ki = match key_opt {
        Some(k) => k,
        None => {
            proof {
                assert(false);
            }
            0
        },
    };
    let upd = encode_updated(updated_ms);
    let mut fq = ctx.collection_namespace.clone();
    fq.append(".");
    fq.append(ctx.collection_name.as_str());
    let ghost ev = edms_view(edms@);
    proof {
        lemma_edms_bounds(fields, key, warn, fields.len() as int);
        assert forall|k: int| 0 <= k < edms@.len() implies #[trigger] edms@[k].1
            < schema.fields@.len() by {
            assert(ev[k].2 == edms@[k].1 as int);
        }
    }
    let mut out = "<?xml version=\"1.0\" encoding=\"utf-8\"?>".to_owned();
    out.append("<feed xml:base=\"");
    push_escaped(&mut out, svc.as_str());
    out.append(
        "\" xmlns=\"http://www.w3.org/2005/Atom\" xmlns:d=\"http://schemas.microsoft.com/ado/2007/08/dataservices\" xmlns:m=\"http://schemas.microsoft.com/ado/2007/08/dataservices/metadata\">",
    );
    out.append("<id>");
    push_escaped(&mut out, coll.as_str());
    out.append("</id><title type=\"text\">");
    push_escaped(&mut out, ctx.collection_name.as_str());
    out.append("</title><updated>");
    out.append(upd.as_str());
    out.append("</updated><link rel=\"self\" title=\"");
    push_escaped(&mut out, ctx.collection_name.as_str());
    out.append("\" href=\"");
    push_escaped(&mut out, ctx.collection_name.as_str());
    out.append("\"/>");
    let ghost head = xml_decl() + feed_open_xml(svc@) + feed_meta_xml(
        coll@,
        ctx.collection_name@,
        upd@,
    );
    proof {
        assert(out@ =~= head);
    }
    let nb = record_batches.len();
    let mut bi: usize = 0;
    while bi < nb
        invariant
            nb == record_batches@.len(),
            bi <= nb,
            fields == schema.fields@,
            key == ctx.key_column_name@,
            warn == (ctx.on_unsupported == OnUnsupported::Warn),
            wf_batches(fields, record_batches@),
            ev == edms_view(edms@),
            ki < fields.len(),
            ki as int == key_index_val(fields, key),
            forall|k: int| 0 <= k < edms@.len() ==> #[trigger] edms@[k].1 < fields.len(),
            edms_of(fields, key, warn) == Ok::<Seq<(Seq<char>, Seq<char>, int)>, FieldType>(ev),
            fq@ == ctx.collection_namespace@ + "."@ + ctx.collection_name@,
            upd@ == updated_text(updated_ms as int),
            has_http_scheme(ctx.service_base_url@),
            has_http_scheme(ctx.collection_base_url@),
            svc@ == with_trailing_slash(ctx.service_base_url@),
            coll@ == without_trailing_slash(ctx.collection_base_url@),
            head == xml_decl() + feed_open_xml(svc@) + feed_meta_xml(
                coll@,
                ctx.collection_name@,
                upd@,
            ),
            batches_upto(
                fields,
                ev,
                ki as int,
                record_batches@,
                coll@,
                ctx.collection_name@,
                fq@,
                upd@,
                bi as int,
            ) matches Ok(t) && out@ == head + t,
        decreases nb - bi,
    {
        let batch = &record_batches[bi];
        let nrows = batch.num_rows();
        let ghost bprefix = batches_upto(
            fields,
            ev,
            ki as int,
            record_batches@,
            coll@,
            ctx.collection_name@,
            fq@,
            upd@,
            bi as int,
        )->Ok_0;
        let mut row: usize = 0;
        while row < nrows
            invariant
                nrows == spec_num_rows(*batch),
                row <= nrows,
                fields == schema.fields@,
                key == ctx.key_column_name@,
                warn == (ctx.on_unsupported == OnUnsupported::Warn),
                wf_batch(fields, *batch),
                batch == &record_batches@[bi as int],
                bi < nb,
                nb == record_batches@.len(),
                ev == edms_view(edms@),
                ki < fields.len(),
                ki as int == key_index_val(fields, key),
                forall|k: int| 0 <= k < edms@.len() ==> #[trigger] edms@[k].1 < fields.len(),
                edms_of(fields, key, warn) == Ok::<Seq<(Seq<char>, Seq<char>, int)>, FieldType>(ev),
                fq@ == ctx.collection_namespace@ + "."@ + ctx.collection_name@,
                upd@ == updated_text(updated_ms as int),
                has_http_scheme(ctx.service_base_url@),
                has_http_scheme(ctx.collection_base_url@),
                svc@ == with_trailing_slash(ctx.service_base_url@),
                coll@ == without_trailing_slash(ctx.collection_base_url@),
                bprefix == batches_upto(
                    fields,
                    ev,
                    ki as int,
                    record_batches@,
                    coll@,
                    ctx.collection_name@,
                    fq@,
                    upd@,
                    bi as int,
                )->Ok_0,
                batches_upto(
                    fields,
                    ev,
                    ki as int,
                    record_batches@,
                    coll@,
                    ctx.collection_name@,
                    fq@,
                    upd@,
                    bi as int,
                ) is Ok,
                rows_upto(
                    fields,
                    ev,
                    ki as int,
                    *batch,
                    coll@,
                    ctx.collection_name@,
                    fq@,
                    upd@,
                    row as int,
                ) matches Ok(t) && out@ == head + bprefix + t,
            decreases nrows - row,
        {
            let ghost prev_out = out@;
            match encode_row_core(
                schema,
                &edms,
                ki,
                batch,
                row,
                &coll,
                &ctx.collection_name,
                &fq,
                &upd,
            ) {
                Ok(core) => {
                    out.append("<entry>");
                    out.append(core.as_str());
                    out.append("</entry>");
                    proof {
                        let t_new = rows_upto(
                            fields,
                            ev,
                            ki as int,
                            *batch,
                            coll@,
                            ctx.collection_name@,
                            fq@,
                            upd@,
                            row + 1,
                        );
                        assert(t_new is Ok);
                        assert(out@ =~= head + bprefix + t_new->Ok_0);
                    }
                },
                Err(u) => {
                    proof {
                        lemma_rows_err_sticky(
                            fields,
                            ev,
                            ki as int,
                            *batch,
                            coll@,
                            ctx.collection_name@,
                            fq@,
                            upd@,
                            row as int,
                            spec_num_rows(*batch) as int,
                        );
                        lemma_batches_err_sticky(
                            fields,
                            ev,
                            ki as int,
                            record_batches@,
                            coll@,
                            ctx.collection_name@,
                            fq@,
                            upd@,
                            bi as int,
                            nb as int,
                        );
                    }
                    return Err(ODataError::UnsupportedDataType(u));
                },
            }
            row = row + 1;
        }
        proof {
            let t_next = batches_upto(
                fields,
                ev,
                ki as int,
                record_batches@,
                coll@,
                ctx.collection_name@,
                fq@,
                upd@,
                bi + 1,
            );
            assert(t_next is Ok);
            assert(out@ =~= head + t_next->Ok_0);
        }
        bi = bi + 1;
    }
    out.append("</feed>");
    proof {
        let body = batches_upto(
            fields,
            ev,
            ki as int,
            record_batches@,
            coll@,
            ctx.collection_name@,
            fq@,
            upd@,
            nb as int,
        )->Ok_0;
        assert(out@ =~= xml_decl() + feed_open_xml(svc@) + feed_meta_xml(
            coll@,
            ctx.collection_name@,
            upd@,
        ) + body + "</feed>"@);
    }
    Ok(out)
}

/// Renders the single available row as a complete entry document: the same
/// setup and body rules as a feed entry, with the entry as document root.
pub fn write_atom_entry_from_record(
    schema: &Schema,
    batch: &RecordBatch,
    ctx: &CollectionContext,
    updated_ms: i64,
) -> (r: Result<String, ODataError>)
    requires
        wf_batch(schema.fields@, *batch),
        spec_num_rows(*batch) >= 1,
        key_exists(schema.fields@, ctx.key_column_name@),
        in_day_range(day_of_secs((updated_ms as int) / 1000)),
    ensures
        res_matches(
            r,
            entry_doc_spec(
                schema.fields@,
                *batch,
                ctx.service_base_url@,
                ctx.collection_base_url@,
                ctx.collection_name@,
                ctx.collection_namespace@,
                ctx.key_column_name@,
                ctx.on_unsupported == OnUnsupported::Warn,
                updated_ms as int,
            ),
        ),
{
    let ghost fields = schema.fields@;
    let ghost key = ctx.key_column_name@;
    let ghost warn = ctx.on_unsupported == OnUnsupported::Warn;
    let svc = match normalize_service_base_url(ctx.service_base_url.as_str()) {
        Ok(u) => u,
        Err(e) => {
            return Err(e);
        },
    };
    let coll = match normalize_collection_base_url(ctx.collection_base_url.as_str()) {
        Ok(u) => u,
        Err(e) => {
            return Err(e);
        },
    };
    let (edms, key_opt) = match to_edms(schema, &ctx.key_column_name, ctx.on_unsupported) {
        Ok(p) => p,
        Err(u) => {
            return Err(ODataError::UnsupportedDataType(u));
        },
    };
    proof {
        lemma_key_exists_some(fields, key);
    }
    let ki = match key_opt {
        Some(k) => k,
        None => {
            proof {
                assert(false);
            }
            0
        },
    };
    let upd = encode_updated(updated_ms);
    let mut fq = ctx.collection_namespace.clone();
    fq.append(".");
    fq.append(ctx.collection_name.as_str());
    let ghost ev = edms_view(edms@);
    proof {
        lemma_edms_bounds(fields, key, warn, fields.len() as int);
        assert forall|k: int| 0 <= k < edms@.len() implies #[trigger] edms@[k].1
            < schema.fields@.len() by {
            assert(ev[k].2 == edms@[k].1 as int);
        }
    }
    let core = match encode_row_core(
        schema,
        &edms,
        ki,
        batch,
        0,
        &coll,
        &ctx.collection_name,
        &fq,
        &upd,
    ) {
        Ok(c) => c,
        Err(u) => {
            return Err(ODataError::UnsupportedDataType(u));
        },
    };
    let mut out = "<?xml version=\"1.0\" encoding=\"utf-8\"?>".to_owned();
    out.append("<entry xml:base=\"");
    push_escaped(&mut out, svc.as_str());
    out.append(
        "\" xmlns=\"http://www.w3.org/2005/Atom\" xmlns:d=\"http://schemas.microsoft.com/ado/2007/08/dataservices\" xmlns:m=\"http://schemas.microsoft.com/ado/2007/08/dataservices/metadata\">",
    );
    out.append(core.as_str());
    out.append("</entry>");
    proof {
        assert(out@ =~= xml_decl() + entry_open_xml(svc@) + core@ + "</entry>"@);
    }
    Ok(out)
}

} // verus!
