//! The metadata document generator: one machine-readable schema description
//! covering every exposed collection, produced through the same type mapper
//! as the data responses.

use vstd::prelude::*;

use crate::edm::{edm_name_of, edm_of, edm_type_name, to_edm_type};
use crate::escape::{escape_of, push_escaped};
use crate::types::{Field, FieldType, OnUnsupported, Schema, UnsupportedDataType};

verus! {

/// A collection as the metadata endpoint sees it: its name, its designated
/// key column and its schema.
pub struct CollectionSchema {
    pub name: String,
    pub key_column_name: String,
    pub schema: Schema,
}

/// The advertised properties of the first `n` fields: (name, type name,
/// nullable); an unsupported field aborts under fail-fast and is omitted
/// under warn-and-skip.
pub open spec fn meta_props_upto(fields: Seq<Field>, warn: bool, n: int) -> Result<
    Seq<(Seq<char>, Seq<char>, bool)>,
    FieldType,
>
    decreases n,
{
    if n <= 0 {
        Ok(Seq::empty())
    } else {
        match meta_props_upto(fields, warn, n - 1) {
            Err(ft) => Err(ft),
            Ok(l) => match edm_of(fields[n - 1].data_type) {
                Some(t) => Ok(l.push((fields[n - 1].name@, edm_name_of(t), fields[n - 1].nullable))),
                None => if warn {
                    Ok(l)
                } else {
                    Err(fields[n - 1].data_type)
                },
            },
        }
    }
}

/// The advertised properties of a whole schema.
pub open spec fn meta_props_of(fields: Seq<Field>, warn: bool) -> Result<
    Seq<(Seq<char>, Seq<char>, bool)>,
    FieldType,
> {
    meta_props_upto(fields, warn, fields.len() as int)
}

pub proof fn lemma_meta_props_err_sticky(fields: Seq<Field>, warn: bool, j: int, n: int)
    requires
        0 <= j < n,
        meta_props_upto(fields, warn, j) is Ok,
        edm_of(fields[j].data_type) is None,
        !warn,
    ensures
        meta_props_upto(fields, warn, n) == Err::<Seq<(Seq<char>, Seq<char>, bool)>, FieldType>(
            fields[j].data_type,
        ),
    decreases n,
{
    if n > j + 1 {
        lemma_meta_props_err_sticky(fields, warn, j, n - 1);
    }
}

/// One advertised property element.
pub open spec fn meta_prop_xml(p: (Seq<char>, Seq<char>, bool)) -> Seq<char> {
    "<Property Name=\""@ + escape_of(p.0) + "\" Type=\""@ + p.1 + "\" Nullable=\""@ + (if p.2 {
        "true"@
    } else {
        "false"@
    }) + "\"/>"@
}

/// The property elements of the first `n` advertised properties.
pub open spec fn meta_props_xml_upto(props: Seq<(Seq<char>, Seq<char>, bool)>, n: int) -> Seq<char>
    decreases n,
{
    if n <= 0 {
        Seq::empty()
    } else {
        meta_props_xml_upto(props, n - 1) + meta_prop_xml(props[n - 1])
    }
}

/// One entity type: its name, its single-column key, and one property per
/// advertised field.
pub open spec fn entity_type_xml(name: Seq<char>, key: Seq<char>, props: Seq<
    (Seq<char>, Seq<char>, bool),
>) -> Seq<char> {
    "<EntityType Name=\""@ + escape_of(name) + "\"><Key><PropertyRef Name=\""@ + escape_of(key)
        + "\"/></Key>"@ + meta_props_xml_upto(props, props.len() as int) + "</EntityType>"@
}

/// One entity set inside the default container.
pub open spec fn entity_set_xml(name: Seq<char>) -> Seq<char> {
    "<EntitySet Name=\""@ + escape_of(name) + "\" EntityType=\"default."@ + escape_of(name)
        + "\"/>"@
}

/// Rendering a property prefix depends only on the properties in it.
proof fn lemma_meta_props_xml_prefix(
    a: Seq<(Seq<char>, Seq<char>, bool)>,
    b: Seq<(Seq<char>, Seq<char>, bool)>,
    n: int,
)
    requires
        forall|k: int| 0 <= k < n ==> a[k] == b[k],
    ensures
        meta_props_xml_upto(a, n) == meta_props_xml_upto(b, n),
    decreases n,
{
    if n > 0 {
        lemma_meta_props_xml_prefix(a, b, n - 1);
    }
}

/// The entity types of the first `n` collections.
pub open spec fn entity_types_upto(colls: Seq<CollectionSchema>, warn: bool, n: int) -> Result<
    Seq<char>,
    FieldType,
>
    decreases n,
{
    if n <= 0 {
        Ok(Seq::empty())
    } else {
        match entity_types_upto(colls, warn, n - 1) {
            Err(ft) => Err(ft),
            Ok(txt) => match meta_props_of(colls[n - 1].schema.fields@, warn) {
                Err(ft) => Err(ft),
                Ok(props) => Ok(
                    txt + entity_type_xml(
                        colls[n - 1].name@,
                        colls[n - 1].key_column_name@,
                        props,
                    ),
                ),
            },
        }
    }
}

proof fn lemma_entity_types_err_sticky(colls: Seq<CollectionSchema>, warn: bool, j: int, n: int)
    requires
        0 <= j < n,
        entity_types_upto(colls, warn, j) is Ok,
        meta_props_of(colls[j].schema.fields@, warn) matches Err(ft),
    ensures
        meta_props_of(colls[j].schema.fields@, warn) matches Err(ft) && entity_types_upto(
            colls,
            warn,
            n,
        ) == Err::<Seq<char>, FieldType>(ft),
    decreases n,
{
    if n > j + 1 {
        lemma_entity_types_err_sticky(colls, warn, j, n - 1);
    }
}

/// The entity sets of the first `n` collections.
pub open spec fn entity_sets_upto(colls: Seq<CollectionSchema>, n: int) -> Seq<char>
    decreases n,
{
    if n <= 0 {
        Seq::empty()
    } else {
        entity_sets_upto(colls, n - 1) + entity_set_xml(colls[n - 1].name@)
    }
}

/// The complete schema-description document: one entity type and one entity
/// set per collection, a single default container, one default-namespace
/// schema wrapper.
pub open spec fn metadata_doc_spec(colls: Seq<CollectionSchema>, warn: bool) -> Result<
    Seq<char>,
    FieldType,
> {
    match entity_types_upto(colls, warn, colls.len() as int) {
        Err(ft) => Err(ft),
        Ok(types) => Ok(
            "<?xml version=\"1.0\" encoding=\"utf-8\"?><edmx:Edmx Version=\"1.0\" xmlns:edmx=\"http://schemas.microsoft.com/ado/2007/06/edmx\"><edmx:DataServices m:DataServiceVersion=\"3.0\" xmlns:m=\"http://schemas.microsoft.com/ado/2007/08/dataservices/metadata\"><Schema Namespace=\"default\" xmlns=\"http://schemas.microsoft.com/ado/2008/09/edm\">"@
                + types
                + "<EntityContainer Name=\"default\" m:IsDefaultEntityContainer=\"true\">"@
                + entity_sets_upto(colls, colls.len() as int)
                + "</EntityContainer></Schema></edmx:DataServices></edmx:Edmx>"@,
        ),
    }
}

/// Renders the advertised properties of one collection's schema, under the
/// unsupported-field policy.
fn encode_meta_props(schema: &Schema, on_unsupported: OnUnsupported) -> (r: Result<
    String,
    UnsupportedDataType,
>)
    ensures
        match r {
            Ok(s) => meta_props_of(schema.fields@, on_unsupported == OnUnsupported::Warn) matches
                Ok(l) && s@ == meta_props_xml_upto(l, l.len() as int),
            Err(u) => meta_props_of(schema.fields@, on_unsupported == OnUnsupported::Warn) matches
                Err(ft) && u.data_type == ft,
        },
{
    let ghost fields = schema.fields@;
    let ghost warn = on_unsupported == OnUnsupported::Warn;
    let mut out = String::new();
    let n = schema.fields.len();
    let mut i: usize = 0;
    while i < n
        invariant
            n == fields.len(),
            i <= n,
            fields == schema.fields@,
            warn == (on_unsupported == OnUnsupported::Warn),
            meta_props_upto(fields, warn, i as int) matches Ok(l) && out@ == meta_props_xml_upto(
                l,
                l.len() as int,
            ),
        decreases n - i,
    {
        let field = &schema.fields[i];
        let ghost prev = meta_props_upto(fields, warn, i as int)->Ok_0;
        match to_edm_type(field.data_type) {
            Ok(t) => {
                out.append("<Property Name=\"");
                push_escaped(&mut out, field.name.as_str());
                out.append("\" Type=\"");
                let tn = edm_type_name(t);
                out.append(tn.as_str());
                out.append("\" Nullable=\"");
                if field.nullable {
                    out.append("true");
                } else {
                    out.append("false");
                }
                out.append("\"/>");
                proof {
                    let cur = meta_props_upto(fields, warn, i + 1)->Ok_0;
                    assert(cur =~= prev.push(
                        (fields[i as int].name@, edm_name_of(t), fields[i as int].nullable),
                    ));
                    lemma_meta_props_xml_prefix(cur, prev, prev.len() as int);
                    assert(meta_props_xml_upto(cur, cur.len() as int) =~= meta_props_xml_upto(
                        prev,
                        prev.len() as int,
                    ) + meta_prop_xml(cur[cur.len() - 1]));
                    assert(out@ =~= meta_props_xml_upto(cur, cur.len() as int));
                }
            },
            Err(u) => {
                match on_unsupported {
                    OnUnsupported::Error => {
                        proof {
                            lemma_meta_props_err_sticky(fields, warn, i as int, n as int);
                        }
                        return Err(u);
                    },
                    OnUnsupported::Warn => {},
                }
            },
        }
        i = i + 1;
    }
    Ok(out)
}

/// Produces the schema-description document for all collections. The entity
/// type advertised for a collection lists exactly the fields that resolve
/// under the same type mapper and policy that the data responses use.
pub fn write_metadata_document(collections: &Vec<CollectionSchema>, on_unsupported: OnUnsupported)
    -> (r: Result<String, UnsupportedDataType>)
    ensures
        match r {
            Ok(s) => metadata_doc_spec(collections@, on_unsupported == OnUnsupported::Warn) matches
                Ok(t) && s@ == t,
            Err(u) => metadata_doc_spec(collections@, on_unsupported == OnUnsupported::Warn)
                matches Err(ft) && u.data_type == ft,
        },
{
    let ghost colls = collections@;
    let ghost warn = on_unsupported == OnUnsupported::Warn;
    let mut types = String::new();
    let n = collections.len();
    let mut i: usize = 0;
    while i < n
        invariant
            n == colls.len(),
            i <= n,
            colls == collections@,
            warn == (on_unsupported == OnUnsupported::Warn),
            entity_types_upto(colls, warn, i as int) matches Ok(t) && types@ == t,
        decreases n - i,
    {
        let c = &collections[i];
        match encode_meta_props(&c.schema, on_unsupported) {
            Ok(props) => {
                types.append("<EntityType Name=\"");
                push_escaped(&mut types, c.name.as_str());
                types.append("\"><Key><PropertyRef Name=\"");
                push_escaped(&mut types, c.key_column_name.as_str());
                types.append("\"/></Key>");
                types.append(props.as_str());
                types.append("</EntityType>");
                proof {
                    assert(entity_types_upto(colls, warn, i + 1) matches Ok(t) && types@ =~= t);
                }
            },
            Err(u) => {
                proof {
                    lemma_entity_types_err_sticky(colls, warn, i as int, n as int);
                }
                return Err(u);
            },
        }
        i = i + 1;
    }
    let mut out =
        "<?xml version=\"1.0\" encoding=\"utf-8\"?><edmx:Edmx Version=\"1.0\" xmlns:edmx=\"http://schemas.microsoft.com/ado/2007/06/edmx\"><edmx:DataServices m:DataServiceVersion=\"3.0\" xmlns:m=\"http://schemas.microsoft.com/ado/2007/08/dataservices/metadata\"><Schema Namespace=\"default\" xmlns=\"http://schemas.microsoft.com/ado/2008/09/edm\">".to_owned();
    out.append(types.as_str());
    out.append("<EntityContainer Name=\"default\" m:IsDefaultEntityContainer=\"true\">");
    let mut i2: usize = 0;
    while i2 < n
        invariant
            n == colls.len(),
            i2 <= n,
            colls == collections@,
            warn == (on_unsupported == OnUnsupported::Warn),
            entity_types_upto(colls, warn, n as int) matches Ok(t) && types@ == t,
            out@ == (
            "<?xml version=\"1.0\" encoding=\"utf-8\"?><edmx:Edmx Version=\"1.0\" xmlns:edmx=\"http://schemas.microsoft.com/ado/2007/06/edmx\"><edmx:DataServices m:DataServiceVersion=\"3.0\" xmlns:m=\"http://schemas.microsoft.com/ado/2007/08/dataservices/metadata\"><Schema Namespace=\"default\" xmlns=\"http://schemas.microsoft.com/ado/2008/09/edm\">"@
                + types@
                + "<EntityContainer Name=\"default\" m:IsDefaultEntityContainer=\"true\">"@
                + entity_sets_upto(colls, i2 as int)),
        decreases n - i2,
    {
        let c = &collections[i2];
        out.append("<EntitySet Name=\"");
        push_escaped(&mut out, c.name.as_str());
        out.append("\" EntityType=\"default.");
        push_escaped(&mut out, c.name.as_str());
        out.append("\"/>");
        proof {
            assert(entity_sets_upto(colls, i2 + 1) =~= entity_sets_upto(colls, i2 as int)
                + entity_set_xml(colls[i2 as int].name@));
            assert(out@ =~= (
            "<?xml version=\"1.0\" encoding=\"utf-8\"?><edmx:Edmx Version=\"1.0\" xmlns:edmx=\"http://schemas.microsoft.com/ado/2007/06/edmx\"><edmx:DataServices m:DataServiceVersion=\"3.0\" xmlns:m=\"http://schemas.microsoft.com/ado/2007/08/dataservices/metadata\"><Schema Namespace=\"default\" xmlns=\"http://schemas.microsoft.com/ado/2008/09/edm\">"@
                + types@
                + "<EntityContainer Name=\"default\" m:IsDefaultEntityContainer=\"true\">"@
                + entity_sets_upto(colls, i2 + 1)));
        }
        i2 = i2 + 1;
    }
    out.append("</EntityContainer></Schema></edmx:DataServices></edmx:Edmx>");
    proof {
        assert(metadata_doc_spec(colls, warn) matches Ok(t) && out@ =~= t);
    }
    Ok(out)
}

} // verus!
