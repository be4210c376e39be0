//! Name-keyed tables: lookup in association lists, and sorted duplicate-free
//! name collections.

use vstd::prelude::*;
use crate::text::{lex_lt, lemma_lex_trichotomy, lemma_lex_trans};

verus! {

/// The views of a sequence of strings.
pub open spec fn views_of(ss: Seq<String>) -> Seq<Seq<char>> {
    ss.map_values(|s: String| s@)
}

/// The value of the first entry named `key`, if any.
pub open spec fn assoc_lookup<T>(entries: Seq<(String, T)>, key: Seq<char>) -> Option<T>
    decreases entries.len(),
{
    if entries.len() == 0 {
        None
    } else if entries[0].0@ == key {
        Some(entries[0].1)
    } else {
        assoc_lookup(entries.drop_first(), key)
    }
}

/// Looks an entry up by name, first match.
pub fn assoc_get<'a, T>(entries: &'a Vec<(String, T)>, key: &str) -> (r: Option<&'a T>)
    ensures
        match r {
            Some(v) => assoc_lookup(entries@, key@) == Some(*v),
            None => assoc_lookup(entries@, key@) is None,
        },
{
    let n = entries.len();
    let mut i: usize = 0;
    proof {
        assert(entries@.skip(0) =~= entries@);
    }
    while i < n
        invariant
            i <= n,
            n == entries@.len(),
            assoc_lookup(entries@, key@) == assoc_lookup(entries@.skip(i as int), key@),
        decreases n - i,
    {
        if crate::text::str_eq(entries[i].0.as_str(), key) {
            return Some(&entries[i].1);
        }
        proof {
            assert(entries@.skip(i as int).drop_first() =~= entries@.skip(i + 1));
        }
        i = i + 1;
    }
    proof {
        assert(entries@.skip(n as int) =~= Seq::<(String, T)>::empty());
    }
    None
}

/// Some string in the sequence reads `t`.
pub open spec fn has_view(ss: Seq<String>, t: Seq<char>) -> bool {
    exists|k: int| 0 <= k < ss.len() && (#[trigger] ss[k])@ == t
}

/// The strings are strictly ascending, hence duplicate-free.
pub open spec fn strictly_sorted(ss: Seq<String>) -> bool {
    forall|i: int, j: int| 0 <= i < j < ss.len() ==> lex_lt((#[trigger] ss[i])@, (#[trigger] ss[j])@)
}

/// Inserts a name into a sorted duplicate-free collection, keeping it so;
/// a name already present is left alone.
pub fn insert_sorted_distinct(v: &mut Vec<String>, x: String)
    requires
        strictly_sorted(old(v)@),
    ensures
        strictly_sorted(final(v)@),
        forall|t: Seq<char>| has_view(final(v)@, t) <==> (has_view(old(v)@, t) || t == x@),
{
    let n = v.len();
    let mut i: usize = 0;
    while i < n
        invariant
            i <= n,
            n == v@.len(),
            v@ == old(v)@,
            strictly_sorted(old(v)@),
            forall|k: int| 0 <= k < i ==> lex_lt((#[trigger] v@[k])@, x@),
        decreases n - i,
    {
        if !crate::text::str_lt(v[i].as_str(), x.as_str()) {
            // x <= v[i]
            if crate::text::str_eq(v[i].as_str(), x.as_str()) {
                proof {
                    assert(v@[i as int]@ == x@);
                    assert(has_view(v@, x@));
                    assert(strictly_sorted(v@));
                }
                return ;
            }
            proof {
                lemma_lex_trichotomy(x@, v@[i as int]@);
                assert(lex_lt(x@, v@[i as int]@));
            }
            let ghost prior = v@;
            v.insert(i, x);
            proof {
                assert(forall|k: int| 0 <= k < i ==> v@[k] == prior[k]);
                assert(v@[i as int]@ == x@);
                assert(forall|k: int| i < k < v@.len() ==> v@[k] == prior[k - 1]);
                assert forall|a: int, b: int| 0 <= a < b < v@.len() implies lex_lt(
                    (v@[a])@,
                    (v@[b])@,
                ) by {
                    if b > i {
                        if b - 1 > i {
                            lemma_lex_trans(x@, prior[i as int]@, prior[b - 1]@);
                        }
                        assert(lex_lt(x@, v@[b]@));
                        if a < i {
                            lemma_lex_trans(prior[a]@, x@, v@[b]@);
                        }
                    }
                }
                assert forall|t: Seq<char>| has_view(v@, t) <==> (has_view(prior, t) || t
                    == x@) by {
                    if has_view(v@, t) {
                        let k = choose|k: int| 0 <= k < v@.len() && (#[trigger] v@[k])@ == t;
                        if k < i {
                            assert(prior[k]@ == t);
                        } else if k > i {
                            assert(prior[k - 1]@ == t);
                        }
                    }
                    if has_view(prior, t) {
                        let k = choose|k: int| 0 <= k < prior.len() && (#[trigger] prior[k])@ == t;
                        if k < i {
                            assert(v@[k]@ == t);
                        } else {
                            assert(v@[k + 1]@ == t);
                        }
                    }
                    if t == x@ {
                        assert(v@[i as int]@ == t);
                    }
                }
            }
            return ;
        }
        i = i + 1;
    }
    let ghost prior = v@;
    v.push(x);
    proof {
        assert(forall|k: int| 0 <= k < prior.len() ==> v@[k] == prior[k]);
        assert(v@[prior.len() as int]@ == x@);
        assert forall|t: Seq<char>| has_view(v@, t) <==> (has_view(prior, t) || t == x@) by {
            if has_view(v@, t) {
                let k = choose|k: int| 0 <= k < v@.len() && (#[trigger] v@[k])@ == t;
                if k < prior.len() {
                    assert(prior[k]@ == t);
                }
            }
            if has_view(prior, t) {
                let k = choose|k: int| 0 <= k < prior.len() && (#[trigger] prior[k])@ == t;
                assert(v@[k]@ == t);
            }
            if t == x@ {
                assert(v@[prior.len() as int]@ == t);
            }
        }
    }
}

} // verus!
