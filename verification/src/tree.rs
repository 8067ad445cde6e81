use vstd::prelude::*;

use crate::float_bits::FloatBits;

verus! {

/// A generic structured configuration tree: the tables, arrays and scalars
/// that the text parser produces, with every float carried as its raw bits.
///
/// Tables keep their entries as a sequence of key-value pairs; the decoder
/// itself enforces which keys may appear, so nothing here depends on an
/// outside map type.
#[derive(Debug)]
pub enum Node {
    /// A boolean scalar.
    Bool(bool),
    /// An integer scalar.
    Int(i64),
    /// A float scalar, as its IEEE-754 bits.
    Float(FloatBits),
    /// A string scalar.
    Str(String),
    /// A date-time scalar.  Only its kind matters to validation, so the
    /// payload is not kept.
    Datetime,
    /// An array of values.
    Array(Vec<Node>),
    /// A table of key-value pairs.
    Table(Vec<(String, Node)>),
}

/// The value under the first entry of a table whose key reads `k`, if any.
pub open spec fn lookup(es: Seq<(String, Node)>, k: Seq<char>) -> Option<Node>
    decreases es.len(),
{
    if es.len() == 0 {
        None
    } else if es[0].0@ == k {
        Some(es[0].1)
    } else {
        lookup(es.drop_first(), k)
    }
}

/// The sites at which a table is decoded; each admits a fixed set of keys.
#[derive(Clone, Copy, Debug, PartialEq, Eq, Structural)]
pub enum KeySet {
    /// The top level of the document: only `camera`.
    TopLevel,
    /// A detector-descriptor pairing: `detector` and `descriptor`.
    Pairing,
    /// A checkerboard detector block.
    Checkerboard,
    /// A ChArUco detector block.
    Charuco,
    /// A descriptor block: only its `type` tag.
    DescriptorBlock,
}

/// Whether the key `k` belongs to the declared field set of the site `ks`.
pub open spec fn key_allowed(ks: KeySet, k: Seq<char>) -> bool {
    match ks {
        KeySet::TopLevel => k == "camera"@,
        KeySet::Pairing => k == "detector"@ || k == "descriptor"@,
        KeySet::Checkerboard => {
            ||| k == "type"@
            ||| k == "width"@
            ||| k == "height"@
            ||| k == "edge_length"@
            ||| k == "variances"@
        },
        KeySet::Charuco => {
            ||| k == "type"@
            ||| k == "width"@
            ||| k == "height"@
            ||| k == "edge_length"@
            ||| k == "marker_length"@
            ||| k == "variances"@
        },
        KeySet::DescriptorBlock => k == "type"@,
    }
}

/// The first key of `es` outside the declared set of `ks`, if any.
pub open spec fn first_bad_key(es: Seq<(String, Node)>, ks: KeySet) -> Option<Seq<char>>
    decreases es.len(),
{
    if es.len() == 0 {
        None
    } else if !key_allowed(ks, es[0].0@) {
        Some(es[0].0@)
    } else {
        first_bad_key(es.drop_first(), ks)
    }
}

/// When entry `i` holds the key `k` and no earlier entry does, `lookup`
/// returns that entry's value.
pub proof fn lemma_lookup_present(es: Seq<(String, Node)>, i: int, k: Seq<char>)
    requires
        0 <= i < es.len(),
        es[i].0@ == k,
        forall|j: int| 0 <= j < i ==> es[j].0@ != k,
    ensures
        lookup(es, k) == Some(es[i].1),
    decreases i,
{
    if i > 0 {
        assert(es[0].0@ != k);
        lemma_lookup_present(es.drop_first(), i - 1, k);
    }
}

/// When no entry holds the key `k`, `lookup` returns nothing.
pub proof fn lemma_lookup_absent(es: Seq<(String, Node)>, k: Seq<char>)
    requires
        forall|j: int| 0 <= j < es.len() ==> es[j].0@ != k,
    ensures
        lookup(es, k) is None,
    decreases es.len(),
{
    if es.len() > 0 {
        lemma_lookup_absent(es.drop_first(), k);
    }
}

/// When entry `i` holds the first key outside the declared set,
/// `first_bad_key` names exactly that key.
pub proof fn lemma_first_bad_key_at(es: Seq<(String, Node)>, ks: KeySet, i: int)
    requires
        0 <= i < es.len(),
        !key_allowed(ks, es[i].0@),
        forall|j: int| 0 <= j < i ==> key_allowed(ks, #[trigger] es[j].0@),
    ensures
        first_bad_key(es, ks) == Some(es[i].0@),
    decreases i,
{
    if i > 0 {
        lemma_first_bad_key_at(es.drop_first(), ks, i - 1);
    }
}

/// When every key is within the declared set, `first_bad_key` is silent.
pub proof fn lemma_first_bad_key_none(es: Seq<(String, Node)>, ks: KeySet)
    requires
        forall|j: int| 0 <= j < es.len() ==> key_allowed(ks, #[trigger] es[j].0@),
    ensures
        first_bad_key(es, ks) is None,
    decreases es.len(),
{
    if es.len() > 0 {
        lemma_first_bad_key_none(es.drop_first(), ks);
    }
}

/// When any entry at all holds a key outside the declared set,
/// `first_bad_key` reports one.
pub proof fn lemma_first_bad_key_some(es: Seq<(String, Node)>, ks: KeySet, i: int)
    requires
        0 <= i < es.len(),
        !key_allowed(ks, es[i].0@),
    ensures
        first_bad_key(es, ks) is Some,
    decreases i,
{
    if key_allowed(ks, es[0].0@) {
        lemma_first_bad_key_some(es.drop_first(), ks, i - 1);
    }
}

/// Find the first entry whose key reads `k`.
pub fn lookup_entry(es: &Vec<(String, Node)>, k: &String) -> (r: Option<usize>)
    ensures
        match r {
            Some(i) => {
                &&& i < es.len()
                &&& es@[i as int].0@ == k@
                &&& lookup(es@, k@) == Some(es@[i as int].1)
            },
            None => lookup(es@, k@) is None,
        },
{
    let mut i: usize = 0;
    while i < es.len()
        invariant
            i <= es.len(),
            forall|j: int| 0 <= j < i ==> es@[j].0@ != k@,
        decreases es.len() - i,
    {
        if es[i].0 == *k {
            proof {
                lemma_lookup_present(es@, i as int, k@);
            }
            return Some(i);
        }
        i += 1;
    }
    proof {
        lemma_lookup_absent(es@, k@);
    }
    None
}

/// Whether the key `k` belongs to the declared field set of the site `ks`.
fn key_allowed_exec(ks: KeySet, k: &String) -> (r: bool)
    ensures
        r == key_allowed(ks, k@),
{
    match ks {
        KeySet::TopLevel => *k == "camera".to_owned(),
        KeySet::Pairing => *k == "detector".to_owned() || *k == "descriptor".to_owned(),
        KeySet::Checkerboard => {
            *k == "type".to_owned() || *k == "width".to_owned() || *k == "height".to_owned()
                || *k == "edge_length".to_owned() || *k == "variances".to_owned()
        },
        KeySet::Charuco => {
            *k == "type".to_owned() || *k == "width".to_owned() || *k == "height".to_owned()
                || *k == "edge_length".to_owned() || *k == "marker_length".to_owned()
                || *k == "variances".to_owned()
        },
        KeySet::DescriptorBlock => *k == "type".to_owned(),
    }
}

/// Find the first key of `es` outside the declared set of `ks`.
pub fn find_bad_key(es: &Vec<(String, Node)>, ks: KeySet) -> (r: Option<String>)
    ensures
        match r {
            Some(s) => first_bad_key(es@, ks) == Some(s@),
            None => first_bad_key(es@, ks) is None,
        },
{
    let mut i: usize = 0;
    while i < es.len()
        invariant
            i <= es.len(),
            forall|j: int| 0 <= j < i ==> key_allowed(ks, #[trigger] es@[j].0@),
        decreases es.len() - i,
    {
        if !key_allowed_exec(ks, &es[i].0) {
            proof {
                lemma_first_bad_key_at(es@, ks, i as int);
            }
            return Some(es[i].0.clone());
        }
        i += 1;
    }
    proof {
        lemma_first_bad_key_none(es@, ks);
    }
    None
}

} // verus!
