//! The list of known transform identifiers and the selections made from it.

use crate::text::{
    lemma_lex_less_irreflexive, lemma_lex_less_total, lemma_lex_less_transitive, lex_less,
    str_less,
};
use vstd::prelude::*;
use vstd::string::*;

verus! {

/// The identifiers held by a list of keys, in the same order.
pub open spec fn names(keys: Seq<String>) -> Seq<Seq<char>> {
    Seq::new(keys.len(), |i: int| keys[i]@)
}

/// Every identifier comes strictly before all that follow it.
pub open spec fn strictly_increasing(s: Seq<Seq<char>>) -> bool {
    forall|i: int, j: int| 0 <= i < j < s.len() ==> lex_less(#[trigger] s[i], #[trigger] s[j])
}

/// A selection as plain text.
pub open spec fn text_of(selection: Option<String>) -> Option<Seq<char>> {
    match selection {
        Some(key) => Some(key@),
        None => None,
    }
}

/// The identifier that a selection holds, or the empty text where nothing
/// is selected.
pub open spec fn selected_or_empty(selection: Option<Seq<char>>) -> Seq<char> {
    match selection {
        Some(key) => key,
        None => Seq::empty(),
    }
}

/// What remains of a selection once the listed identifiers are `listed`:
/// the selection itself if it is listed, nothing otherwise.
pub open spec fn retained(selection: Option<Seq<char>>, listed: Seq<Seq<char>>) -> Option<
    Seq<char>,
> {
    match selection {
        Some(key) => if listed.contains(key) {
            Some(key)
        } else {
            None
        },
        None => None,
    }
}

/// A selection that is listed stands as it is; one that is not listed
/// becomes no selection, and no selection stays none.
pub proof fn lemma_invalidation(selection: Option<Seq<char>>, listed: Seq<Seq<char>>)
    ensures
        selection matches Some(key) ==> if listed.contains(key) {
            retained(selection, listed) == selection
        } else {
            retained(selection, listed) is None
        },
        selection is None ==> retained(selection, listed) is None,
{
}

/// A strictly increasing list holds no identifier twice.
pub proof fn lemma_strictly_increasing_no_duplicates(s: Seq<Seq<char>>)
    requires
        strictly_increasing(s),
    ensures
        s.no_duplicates(),
{
    assert forall|i: int, j: int| 0 <= i < s.len() && 0 <= j < s.len() && i != j implies s[i]
        != s[j] by {
        if i < j {
            assert(lex_less(s[i], s[j]));
            lemma_lex_less_irreflexive(s[i]);
        } else {
            assert(lex_less(s[j], s[i]));
            lemma_lex_less_irreflexive(s[j]);
        }
    }
}

/// Two strictly increasing lists that hold the same identifiers are the
/// same list.
pub proof fn lemma_strictly_increasing_unique(s: Seq<Seq<char>>, t: Seq<Seq<char>>)
    requires
        strictly_increasing(s),
        strictly_increasing(t),
        forall|k: Seq<char>| s.contains(k) <==> t.contains(k),
    ensures
        s == t,
    decreases s.len(),
{
    if s.len() == 0 {
        if t.len() > 0 {
            assert(t.contains(t[0]));
        }
        assert(s =~= t);
    } else {
        assert(s.contains(s[0]));
        assert(t.len() > 0);
        assert(t.contains(t[0]));
        let i = choose|i: int| 0 <= i < t.len() && t[i] == s[0];
        let j = choose|j: int| 0 <= j < s.len() && s[j] == t[0];
        if i > 0 {
            assert(lex_less(t[0], t[i]));
            if j > 0 {
                assert(lex_less(s[0], s[j]));
                lemma_lex_less_transitive(s[0], t[0], s[0]);
            }
            lemma_lex_less_irreflexive(s[0]);
        }
        assert(s[0] == t[0]);
        let s1 = s.drop_first();
        let t1 = t.drop_first();
        assert forall|k: Seq<char>| s1.contains(k) <==> t1.contains(k) by {
            if s1.contains(k) {
                let a = choose|a: int| 0 <= a < s1.len() && s1[a] == k;
                assert(s[a + 1] == k);
                assert(lex_less(s[0], s[a + 1]));
                assert(s.contains(k));
                let b = choose|b: int| 0 <= b < t.len() && t[b] == k;
                lemma_lex_less_irreflexive(k);
                assert(b > 0);
                assert(t1[b - 1] == k);
            }
            if t1.contains(k) {
                let a = choose|a: int| 0 <= a < t1.len() && t1[a] == k;
                assert(t[a + 1] == k);
                assert(lex_less(t[0], t[a + 1]));
                assert(t.contains(k));
                let b = choose|b: int| 0 <= b < s.len() && s[b] == k;
                lemma_lex_less_irreflexive(k);
                assert(b > 0);
                assert(s1[b - 1] == k);
            }
        }
        assert forall|a: int, b: int| 0 <= a < b < s1.len() implies lex_less(
            #[trigger] s1[a],
            #[trigger] s1[b],
        ) by {
            assert(lex_less(s[a + 1], s[b + 1]));
        }
        assert forall|a: int, b: int| 0 <= a < b < t1.len() implies lex_less(
            #[trigger] t1[a],
            #[trigger] t1[b],
        ) by {
            assert(lex_less(t[a + 1], t[b + 1]));
        }
        lemma_strictly_increasing_unique(s1, t1);
        assert(s =~= seq![s[0]] + s1);
        assert(t =~= seq![t[0]] + t1);
    }
}

/// Whether `key` is one of `keys`.
pub fn contains_key(keys: &Vec<String>, key: &String) -> (found: bool)
    ensures
        found == names(keys@).contains(key@),
{
    let mut i: usize = 0;
    while i < keys.len()
        invariant
            i <= keys.len(),
            forall|j: int| 0 <= j < i ==> names(keys@)[j] != key@,
        decreases keys.len() - i,
    {
        if keys[i] == *key {
            assert(names(keys@)[i as int] == key@);
            return true;
        }
        i += 1;
    }
    false
}

/// Puts `key` into a strictly increasing list at its place, unless the list
/// holds it already.
pub fn insert_key(keys: &mut Vec<String>, key: &String)
    requires
        strictly_increasing(names(old(keys)@)),
    ensures
        strictly_increasing(names(final(keys)@)),
        forall|k: Seq<char>|
            names(final(keys)@).contains(k) <==> (names(old(keys)@).contains(k) || k == key@),
{
    let ghost before = names(keys@);
    let mut at: usize = 0;
    while at < keys.len() && str_less(keys[at].as_str(), key.as_str())
        invariant
            at <= keys.len(),
            keys@ == old(keys)@,
            before == names(keys@),
            forall|j: int| 0 <= j < at ==> lex_less(#[trigger] before[j], key@),
        decreases keys.len() - at,
    {
        assert(before[at as int] == keys@[at as int]@);
        at += 1;
    }
    if at < keys.len() && !str_less(key.as_str(), keys[at].as_str()) {
        proof {
            lemma_lex_less_total(before[at as int], key@);
            assert(before.contains(key@));
        }
        return ;
    }
    keys.insert(at, key.clone());
    proof {
        let after = names(keys@);
        assert(after =~= before.insert(at as int, key@));
        assert forall|i: int, j: int| 0 <= i < j < after.len() implies lex_less(
            #[trigger] after[i],
            #[trigger] after[j],
        ) by {
            if j < at {
                assert(lex_less(before[i], before[j]));
            } else if j == at {
                assert(lex_less(before[i], key@));
            } else if i < at {
                assert(lex_less(before[i], key@));
                if j - 1 > at {
                    assert(lex_less(before[at as int], before[j - 1]));
                    lemma_lex_less_transitive(key@, before[at as int], before[j - 1]);
                }
                lemma_lex_less_transitive(before[i], key@, before[j - 1]);
            } else if i == at {
                if j - 1 > at {
                    assert(lex_less(before[at as int], before[j - 1]));
                    lemma_lex_less_transitive(key@, before[at as int], before[j - 1]);
                }
            } else {
                assert(lex_less(before[i - 1], before[j - 1]));
            }
        }
        assert forall|k: Seq<char>| after.contains(k) <==> (before.contains(k) || k == key@) by {
            if after.contains(k) {
                let i = choose|i: int| 0 <= i < after.len() && after[i] == k;
                if i < at {
                    assert(before[i] == k);
                } else if i > at {
                    assert(before[i - 1] == k);
                }
            }
            if before.contains(k) {
                let i = choose|i: int| 0 <= i < before.len() && before[i] == k;
                if i < at {
                    assert(after[i] == k);
                } else {
                    assert(after[i + 1] == k);
                }
            }
            if k == key@ {
                assert(after[at as int] == k);
            }
        }
    }
}

/// The identifiers of `fetched` in display order: strictly increasing, each
/// one once.
pub fn sorted_keys(fetched: &Vec<String>) -> (listed: Vec<String>)
    ensures
        strictly_increasing(names(listed@)),
        names(listed@).no_duplicates(),
        forall|k: Seq<char>| names(listed@).contains(k) <==> names(fetched@).contains(k),
{
    let mut listed: Vec<String> = Vec::new();
    let mut i: usize = 0;
    while i < fetched.len()
        invariant
            i <= fetched.len(),
            strictly_increasing(names(listed@)),
            forall|k: Seq<char>|
                names(listed@).contains(k) <==> exists|j: int|
                    0 <= j < i && names(fetched@)[j] == k,
        decreases fetched.len() - i,
    {
        insert_key(&mut listed, &fetched[i]);
        proof {
            assert(names(fetched@)[i as int] == fetched@[i as int]@);
        }
        i += 1;
    }
    proof {
        lemma_strictly_increasing_no_duplicates(names(listed@));
    }
    listed
}

/// The keys that a fetch brought, or none at all where the fetch failed.
pub fn transform_keys_or_empty<E>(fetched: Result<Vec<String>, E>) -> (keys: Vec<String>)
    ensures
        match fetched {
            Ok(brought) => keys == brought,
            Err(_) => keys@.len() == 0,
        },
{
    match fetched {
        Ok(brought) => brought,
        Err(_) => Vec::new(),
    }
}

/// Keeps a selection that is still listed and drops one that is not.
pub fn retain_selection(selection: Option<String>, keys: &Vec<String>) -> (kept: Option<String>)
    ensures
        text_of(kept) == retained(text_of(selection), names(keys@)),
        kept is Some ==> kept == selection,
{
    match selection {
        Some(key) => if contains_key(keys, &key) {
            Some(key)
        } else {
            None
        },
        None => None,
    }
}

/// The identifier that a selection holds, or the empty text where nothing
/// is selected.
pub fn selection_or_empty(selection: &Option<String>) -> (out: String)
    ensures
        out@ == selected_or_empty(text_of(*selection)),
{
    match selection {
        Some(key) => key.clone(),
        None => String::new(),
    }
}

/// The text that a selector shows for a selection.
pub fn selector_text(selection: &Option<String>) -> (shown: String)
    ensures
        shown@ == match text_of(*selection) {
            Some(key) => key,
            None => "Select..."@,
        },
{
    match selection {
        Some(key) => key.clone(),
        None => String::from_str("Select..."),
    }
}

} // verus!
