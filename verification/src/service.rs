//! The service document: the listing of exposed collections under one
//! default workspace.

use vstd::prelude::*;

use crate::escape::{escape_of, push_escaped};

verus! {

/// One collection listing: its href and title are both the collection name.
pub open spec fn service_coll_xml(name: Seq<char>) -> Seq<char> {
    "<collection href=\""@ + escape_of(name) + "\"><atom:title>"@ + escape_of(name)
        + "</atom:title></collection>"@
}

/// The listings of the first `n` collections, in order.
pub open spec fn service_colls_upto(names: Seq<Seq<char>>, n: int) -> Seq<char>
    decreases n,
{
    if n <= 0 {
        Seq::empty()
    } else {
        service_colls_upto(names, n - 1) + service_coll_xml(names[n - 1])
    }
}

/// The complete service document for a base URL and the collection names.
pub open spec fn service_doc_spec(base: Seq<char>, names: Seq<Seq<char>>) -> Seq<char> {
    "<?xml version=\"1.0\" encoding=\"utf-8\"?><service xml:base=\""@ + escape_of(base)
        + "\" xmlns=\"http://www.w3.org/2007/app\" xmlns:atom=\"http://www.w3.org/2005/Atom\"><workspace><atom:title>default</atom:title>"@
        + service_colls_upto(names, names.len() as int) + "</workspace></service>"@
}

/// The deep view of a list of names.
pub open spec fn names_view(names: Seq<String>) -> Seq<Seq<char>> {
    Seq::new(names.len(), |i: int| names[i]@)
}

/// Produces the service document listing every collection under the default
/// workspace.
pub fn write_service_document(base_url: &String, collection_names: &Vec<String>) -> (r: String)
    ensures
        r@ == service_doc_spec(base_url@, names_view(collection_names@)),
{
    let ghost names = names_view(collection_names@);
    let mut out = "<?xml version=\"1.0\" encoding=\"utf-8\"?><service xml:base=\"".to_owned();
    push_escaped(&mut out, base_url.as_str());
    out.append(
        "\" xmlns=\"http://www.w3.org/2007/app\" xmlns:atom=\"http://www.w3.org/2005/Atom\"><workspace><atom:title>default</atom:title>",
    );
    let ghost head = out@;
    let n = collection_names.len();
    let mut i: usize = 0;
    while i < n
        invariant
            n == names.len(),
            i <= n,
            names == names_view(collection_names@),
            out@ == head + service_colls_upto(names, i as int),
        decreases n - i,
    {
        let name = &collection_names[i];
        out.append("<collection href=\"");
        push_escaped(&mut out, name.as_str());
        out.append("\"><atom:title>");
        push_escaped(&mut out, name.as_str());
        out.append("</atom:title></collection>");
        proof {
            assert(out@ =~= head + service_colls_upto(names, i + 1));
        }
        i = i + 1;
    }
    out.append("</workspace></service>");
    proof {
        assert(out@ =~= service_doc_spec(base_url@, names));
    }
    out
}

} // verus!
