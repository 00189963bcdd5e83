use crate::claims::{
    has_claim, inserted, is_first_named, lookup, unique_names, DocumentModel, ValueModel,
};
use vstd::prelude::*;

verus! {

/// A first entry of a name is the only first entry of that name, and its
/// value is what the document gives to the name.
pub proof fn lemma_lookup_first(doc: DocumentModel, name: Seq<char>, i: int)
    requires
        is_first_named(doc, name, i),
    ensures
        has_claim(doc, name),
        (choose|k: int| is_first_named(doc, name, k)) == i,
        lookup(doc, name) == Some(doc[i].1),
{
    let k = choose|k: int| is_first_named(doc, name, k);
    assert(is_first_named(doc, name, k));
    if k < i {
        assert(doc[k].0 != name);
    }
    if i < k {
        assert(doc[i].0 != name);
    }
}

/// A document gives no value to a name that none of its entries has.
pub proof fn lemma_lookup_absent(doc: DocumentModel, name: Seq<char>)
    requires
        forall|j: int| 0 <= j < doc.len() ==> (#[trigger] doc[j]).0 != name,
    ensures
        lookup(doc, name) is None,
{
    if has_claim(doc, name) {
        let k = choose|k: int| is_first_named(doc, name, k);
        assert(doc[k].0 != name);
    }
}

/// Law of insertion: the name that was inserted has the inserted value.
pub proof fn lemma_inserted_is_found(doc: DocumentModel, name: Seq<char>, value: ValueModel)
    ensures
        lookup(inserted(doc, name, value), name) == Some(value),
{
    let after = inserted(doc, name, value);
    if has_claim(doc, name) {
        let i = choose|i: int| is_first_named(doc, name, i);
        assert forall|j: int| 0 <= j < i implies (#[trigger] after[j]).0 != name by {
            assert(doc[j].0 != name);
        }
        assert(is_first_named(after, name, i));
        lemma_lookup_first(after, name, i);
    } else {
        let n = doc.len() as int;
        assert forall|j: int| 0 <= j < n implies (#[trigger] after[j]).0 != name by {
            lemma_no_claim(doc, name, j);
        }
        assert(is_first_named(after, name, n));
        lemma_lookup_first(after, name, n);
    }
}

/// Law of insertion: every other name has the value that it had.
pub proof fn lemma_inserted_keeps_others(
    doc: DocumentModel,
    name: Seq<char>,
    value: ValueModel,
    other: Seq<char>,
)
    requires
        other != name,
    ensures
        lookup(inserted(doc, name, value), other) == lookup(doc, other),
{
    let after = inserted(doc, name, value);
    assert forall|j: int| 0 <= j < doc.len() implies ((#[trigger] after[j]).0 == other) == (
    doc[j].0 == other) by {
        if has_claim(doc, name) {
            let i = choose|i: int| is_first_named(doc, name, i);
            assert(doc[i].0 == name);
        }
    }
    if has_claim(doc, other) {
        let i = choose|i: int| is_first_named(doc, other, i);
        assert forall|j: int| 0 <= j < i implies (#[trigger] after[j]).0 != other by {
            assert(doc[j].0 != other);
        }
        assert(is_first_named(after, other, i));
        lemma_lookup_first(after, other, i);
        lemma_lookup_first(doc, other, i);
    } else {
        assert forall|j: int| 0 <= j < after.len() implies (#[trigger] after[j]).0 != other by {
            if j < doc.len() {
                lemma_no_claim(doc, other, j);
            }
        }
        lemma_lookup_absent(after, other);
    }
}

/// Law of insertion: names that differ pairwise still do.
pub proof fn lemma_inserted_keeps_names_unique(
    doc: DocumentModel,
    name: Seq<char>,
    value: ValueModel,
)
    requires
        unique_names(doc),
    ensures
        unique_names(inserted(doc, name, value)),
{
    let after = inserted(doc, name, value);
    assert forall|a: int, b: int| 0 <= a < b < after.len() implies (#[trigger] after[a]).0 != (
    #[trigger] after[b]).0 by {
        if has_claim(doc, name) {
            assert(doc[a].0 != doc[b].0);
        } else if b < doc.len() {
            assert(doc[a].0 != doc[b].0);
        } else {
            lemma_no_claim(doc, name, a);
        }
    }
}

/// Where a document holds no claim of a name, no entry has that name.
proof fn lemma_no_claim(doc: DocumentModel, name: Seq<char>, j: int)
    requires
        !has_claim(doc, name),
        0 <= j < doc.len(),
    ensures
        doc[j].0 != name,
    decreases j,
{
    if doc[j].0 == name {
        if exists|k: int| 0 <= k < j && (#[trigger] doc[k]).0 == name {
            let k = choose|k: int| 0 <= k < j && (#[trigger] doc[k]).0 == name;
            lemma_no_claim(doc, name, k);
        } else {
            assert(is_first_named(doc, name, j));
        }
    }
}

} // verus!
