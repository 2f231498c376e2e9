use vstd::prelude::*;

use crate::scan::str_eq;

verus! {

// The faceting model of the surrounding log-session tool: a facet names a
// record property, carries a match mode and the values seen for it, and a
// sorting state names a column.  The session itself (its store, locking
// and transport) lives with the caller; the rules for changing a facet
// list are here, as functions from the old list to the new one.

/// How several selected values of one facet combine.
#[derive(Debug, Copy, Clone, PartialEq, Eq, Structural)]
#[allow(clippy::upper_case_acronyms)]
pub enum MatchType {
    AND,
    OR,
}

impl MatchType {
    /// The mode an alias names; anything other than `AND` is `OR`.
    pub fn from_alias(s: &str) -> (r: MatchType)
        ensures
            r == (if s@ == "AND"@ {
                MatchType::AND
            } else {
                MatchType::OR
            }),
    {
        if str_eq(s, "AND") {
            MatchType::AND
        } else {
            MatchType::OR
        }
    }
}

/// One value a facet's property has taken, whether records holding it are
/// filtered out, and how many records hold it.
#[derive(Debug, Clone, PartialEq, Eq)]
pub struct FacetValue {
    pub value: String,
    pub filtered: bool,
    pub total: u32,
}

/// One faceted property of a session.
#[derive(Debug, Clone, PartialEq, Eq)]
pub struct Facet {
    pub property: String,
    pub match_type: MatchType,
    pub values: Vec<FacetValue>,
}

/// One column of a sorting order, descending or not.
#[derive(Debug, Clone, PartialEq, Eq)]
pub struct SortingState {
    pub id: String,
    pub desc: bool,
}

/// The first facet with the given property at or after `i`, if any.
pub open spec fn first_facet(fs: Seq<Facet>, p: Seq<char>, i: int) -> Option<int>
    decreases fs.len() - i,
{
    if 0 <= i < fs.len() {
        if fs[i].property@ == p {
            Some(i)
        } else {
            first_facet(fs, p, i + 1)
        }
    } else {
        None
    }
}

/// The first value entry equal to `v` at or after `i`, if any.
pub open spec fn first_value(vs: Seq<FacetValue>, v: Seq<char>, i: int) -> Option<int>
    decreases vs.len() - i,
{
    if 0 <= i < vs.len() {
        if vs[i].value@ == v {
            Some(i)
        } else {
            first_value(vs, v, i + 1)
        }
    } else {
        None
    }
}

/// The facet list that remains when every facet with the given property
/// is taken out.
pub open spec fn sp_remove_facets(fs: Seq<Facet>, p: Seq<char>) -> Seq<Facet>
    decreases fs.len(),
{
    if fs.len() == 0 {
        fs
    } else if fs[0].property@ == p {
        sp_remove_facets(fs.drop_first(), p)
    } else {
        seq![fs[0]] + sp_remove_facets(fs.drop_first(), p)
    }
}

proof fn lemma_remove_facets_push(fs: Seq<Facet>, p: Seq<char>, f: Facet)
    ensures
        sp_remove_facets(fs.push(f), p) == (if f.property@ == p {
            sp_remove_facets(fs, p)
        } else {
            sp_remove_facets(fs, p) + seq![f]
        }),
    decreases fs.len(),
{
    reveal_with_fuel(sp_remove_facets, 4);
    if fs.len() == 0 {
        assert(fs.push(f).drop_first() =~= Seq::<Facet>::empty());
        assert(sp_remove_facets(Seq::<Facet>::empty(), p) =~= Seq::<Facet>::empty());
        assert(fs.push(f)[0] == f);
        if f.property@ != p {
            assert(sp_remove_facets(fs.push(f), p) =~= sp_remove_facets(fs, p) + seq![f]);
        }
    } else {
        assert(fs.push(f).drop_first() =~= fs.drop_first().push(f));
        lemma_remove_facets_push(fs.drop_first(), p, f);
        if fs[0].property@ != p && f.property@ == p {
            assert(sp_remove_facets(fs.push(f), p) =~= sp_remove_facets(fs, p));
        }
        if fs[0].property@ != p && f.property@ != p {
            assert(seq![fs[0]] + (sp_remove_facets(fs.drop_first(), p) + seq![f]) =~= (seq![fs[0]]
                + sp_remove_facets(fs.drop_first(), p)) + seq![f]);
        }
    }
}

/// A new facet for a property, with no values yet.
pub fn add_facet(facets: Vec<Facet>, property: String, match_type: MatchType) -> (r: Vec<Facet>)
    ensures
        r@.len() == facets@.len() + 1,
        r@.subrange(0, facets@.len() as int) == facets@,
        r@.last().property == property,
        r@.last().match_type == match_type,
        r@.last().values@ == Seq::<FacetValue>::empty(),
{
    let ghost orig = facets@;
    let mut fs = facets;
    fs.push(Facet { property, match_type, values: Vec::new() });
    proof {
        assert(fs@.subrange(0, orig.len() as int) =~= orig);
    }
    fs
}

/// The list with the first facet of the given property switched to the
/// given mode; without such a facet the list is unchanged.
pub fn set_facet_match_type(facets: Vec<Facet>, property: &str, match_type: MatchType) -> (r: Vec<
    Facet,
>)
    ensures
        (match first_facet(facets@, property@, 0) {
            None => r@ == facets@,
            Some(k) => r@ == facets@.update(
                k,
                (Facet {
                    property: facets@[k].property,
                    match_type,
                    values: facets@[k].values,
                }),
            ),
        }),
{
    let ghost orig = facets@;
    let mut fs = facets;
    let n: usize = fs.len();
    let mut k: usize = 0;
    while k < n && !str_eq(fs[k].property.as_str(), property)
        invariant
            0 <= k <= n,
            n == fs@.len(),
            fs@ == orig,
            first_facet(orig, property@, 0) == first_facet(orig, property@, k as int),
        decreases n - k,
    {
        k = k + 1;
    }
    if k < n {
        let old_f = fs.remove(k);
        let new_f = Facet { property: old_f.property, match_type, values: old_f.values };
        fs.insert(k, new_f);
        proof {
            assert(first_facet(facets@, property@, 0) == Some(k as int));
            let of = orig[k as int];
            assert(fs@ =~= orig.update(
                k as int,
                Facet { property: of.property, match_type, values: of.values },
            ));
        }
        fs
    } else {
        fs
    }
}

/// The list with every facet of the given property taken out.
pub fn remove_facet(facets: Vec<Facet>, property: &str) -> (r: Vec<Facet>)
    ensures
        r@ == sp_remove_facets(facets@, property@),
{
    let ghost orig = facets@;
    let mut out: Vec<Facet> = Vec::new();
    let n: usize = facets.len();
    let mut fs = facets;
    let mut k: usize = 0;
    while k < n
        invariant
            0 <= k <= n,
            n == orig.len(),
            fs@ == orig.subrange(k as int, n as int),
            out@ == sp_remove_facets(orig.subrange(0, k as int), property@),
        decreases n - k,
    {
        let f: Facet = fs.remove(0);
        assert(f == orig[k as int]);
        let keep: bool = !str_eq(f.property.as_str(), property);
        proof {
            assert(orig.subrange(0, k + 1) =~= orig.subrange(0, k as int).push(orig[k as int]));
            lemma_remove_facets_push(orig.subrange(0, k as int), property@, orig[k as int]);
            assert(fs@ =~= orig.subrange(k + 1, n as int));
        }
        if keep {
            out.push(f);
            proof {
                assert(out@ =~= sp_remove_facets(orig.subrange(0, k as int), property@) + seq![
                    orig[k as int],
                ]);
            }
        }
        k = k + 1;
    }
    proof {
        assert(orig.subrange(0, n as int) =~= orig);
    }
    out
}

/// The list with, in the first facet of the given property, the first
/// value entry equal to `value` switched to `filtered`; where either is
/// missing the list is unchanged.
pub fn set_filtered_for_facet_value(
    facets: Vec<Facet>,
    property: &str,
    value: &str,
    filtered: bool,
) -> (r: Vec<Facet>)
    ensures
        (match first_facet(facets@, property@, 0) {
            None => r@ == facets@,
            Some(k) => r@.len() == facets@.len() && (forall|j: int|
                0 <= j < facets@.len() && j != k ==> r@[j] == facets@[j]) && r@[k].property
                == facets@[k].property && r@[k].match_type == facets@[k].match_type
                && r@[k].values@ == (match first_value(facets@[k].values@, value@, 0) {
                None => facets@[k].values@,
                Some(q) => facets@[k].values@.update(
                    q,
                    (FacetValue {
                        value: facets@[k].values@[q].value,
                        filtered,
                        total: facets@[k].values@[q].total,
                    }),
                ),
            }),
        }),
{
    let ghost orig = facets@;
    let mut fs = facets;
    let n: usize = fs.len();
    let mut k: usize = 0;
    while k < n && !str_eq(fs[k].property.as_str(), property)
        invariant
            0 <= k <= n,
            n == fs@.len(),
            fs@ == orig,
            first_facet(orig, property@, 0) == first_facet(orig, property@, k as int),
        decreases n - k,
    {
        k = k + 1;
    }
    if k < n {
        proof {
            assert(first_facet(facets@, property@, 0) == Some(k as int));
        }
        let old_f = fs.remove(k);
        let ghost old_vals = old_f.values@;
        let new_vs = set_value_filtered(old_f.values, value, filtered);
        let new_f = Facet { property: old_f.property, match_type: old_f.match_type, values: new_vs };
        fs.insert(k, new_f);
        proof {
            assert(fs@ =~= orig.update(k as int, new_f));
            assert(forall|j: int| 0 <= j < orig.len() && j != k ==> fs@[j] == orig[j]);
        }
        fs
    } else {
        fs
    }
}

/// The value list with the first entry equal to `value` switched to
/// `filtered`; without such an entry the list is unchanged.
fn set_value_filtered(values: Vec<FacetValue>, value: &str, filtered: bool) -> (r: Vec<FacetValue>)
    ensures
        (match first_value(values@, value@, 0) {
            None => r@ == values@,
            Some(q) => r@ == values@.update(
                q,
                (FacetValue { value: values@[q].value, filtered, total: values@[q].total }),
            ),
        }),
{
    let ghost orig = values@;
    let mut vs = values;
    let n: usize = vs.len();
    let mut q: usize = 0;
    while q < n && !str_eq(vs[q].value.as_str(), value)
        invariant
            0 <= q <= n,
            n == vs@.len(),
            vs@ == orig,
            first_value(orig, value@, 0) == first_value(orig, value@, q as int),
        decreases n - q,
    {
        q = q + 1;
    }
    if q < n {
        let old_v = vs.remove(q);
        let new_v = FacetValue { value: old_v.value, filtered, total: old_v.total };
        vs.insert(q, new_v);
        proof {
            assert(first_value(values@, value@, 0) == Some(q as int));
            let ov = orig[q as int];
            assert(vs@ =~= orig.update(
                q as int,
                FacetValue { value: ov.value, filtered, total: ov.total },
            ));
        }
        vs
    } else {
        vs
    }
}

} // verus!
