use vstd::prelude::*;

use crate::constants::PROFILE_EXTENSION;
use crate::text::str_eq;

verus! {

/// `a` comes before or equals `b` in lexicographic order of characters.
pub open spec fn seq_le(a: Seq<char>, b: Seq<char>) -> bool
    decreases a.len(),
{
    if a.len() == 0 {
        true
    } else if b.len() == 0 {
        false
    } else if (a[0] as u32) != (b[0] as u32) {
        (a[0] as u32) < (b[0] as u32)
    } else {
        seq_le(a.drop_first(), b.drop_first())
    }
}

pub proof fn lemma_seq_le_total(a: Seq<char>, b: Seq<char>)
    ensures
        seq_le(a, b) || seq_le(b, a),
    decreases a.len(),
{
    if a.len() > 0 && b.len() > 0 && (a[0] as u32) == (b[0] as u32) {
        lemma_seq_le_total(a.drop_first(), b.drop_first());
    }
}

pub proof fn lemma_seq_le_reflexive(a: Seq<char>)
    ensures
        seq_le(a, a),
    decreases a.len(),
{
    if a.len() > 0 {
        lemma_seq_le_reflexive(a.drop_first());
    }
}

pub proof fn lemma_seq_le_transitive(a: Seq<char>, b: Seq<char>, c: Seq<char>)
    requires
        seq_le(a, b),
        seq_le(b, c),
    ensures
        seq_le(a, c),
    decreases a.len(),
{
    if a.len() > 0 && b.len() > 0 && c.len() > 0 && (a[0] as u32) == (b[0] as u32) && (b[0] as u32) == (c[0] as u32) {
        lemma_seq_le_transitive(a.drop_first(), b.drop_first(), c.drop_first());
    }
}

/// Lexicographic comparison of two strings by characters.
pub fn str_le(a: &str, b: &str) -> (r: bool)
    ensures
        r == seq_le(a@, b@),
{
    let la = a.unicode_len();
    let lb = b.unicode_len();
    let mut i: usize = 0;
    assert(a@.subrange(0, la as int) =~= a@);
    assert(b@.subrange(0, lb as int) =~= b@);
    while i < la && i < lb
        invariant
            la == a@.len(),
            lb == b@.len(),
            i <= la,
            i <= lb,
            seq_le(a@, b@) == seq_le(a@.subrange(i as int, la as int), b@.subrange(i as int, lb as int)),
        decreases la - i,
    {
        let ca = a.get_char(i);
        let cb = b.get_char(i);
        let ghost sa = a@.subrange(i as int, la as int);
        let ghost sb = b@.subrange(i as int, lb as int);
        assert(sa[0] == ca && sb[0] == cb);
        if ca as u32 != cb as u32 {
            return (ca as u32) < (cb as u32);
        }
        assert(sa.drop_first() =~= a@.subrange(i + 1, la as int));
        assert(sb.drop_first() =~= b@.subrange(i + 1, lb as int));
        i = i + 1;
    }
    la <= lb
}

/// Names of the entries of the profile directory that are profiles: each entry is given as
/// (extension, file stem), either absent when the file name has none or it is not UTF-8.
pub open spec fn profile_entry_names(entries: Seq<(Option<String>, Option<String>)>) -> Seq<Seq<char>>
    decreases entries.len(),
{
    if entries.len() == 0 {
        Seq::empty()
    } else {
        let rest = profile_entry_names(entries.drop_last());
        let e = entries.last();
        if e.0 is Some && e.0->0@ == PROFILE_EXTENSION@ && e.1 is Some {
            rest.push(e.1->0@)
        } else {
            rest
        }
    }
}

pub open spec fn string_views(v: Seq<String>) -> Seq<Seq<char>> {
    v.map_values(|s: String| s@)
}

pub open spec fn sorted_names(r: Seq<Seq<char>>) -> bool {
    forall|i: int, j: int| 0 <= i < j < r.len() ==> seq_le(#[trigger] r[i], #[trigger] r[j])
}

/// The profile names among the directory entries, in lexicographic order.
pub fn list_profile_names(entries: &Vec<(Option<String>, Option<String>)>) -> (r: Vec<String>)
    ensures
        sorted_names(string_views(r@)),
        string_views(r@).to_multiset() == profile_entry_names(entries@).to_multiset(),
{
    broadcast use vstd::seq_lib::to_multiset_insert;
    broadcast use vstd::seq_lib::group_to_multiset_ensures;
    let mut out: Vec<String> = Vec::new();
    let mut i: usize = 0;
    assert(entries@.subrange(0, 0) =~= Seq::<(Option<String>, Option<String>)>::empty());
    assert(string_views(out@) =~= Seq::<Seq<char>>::empty());
    while i < entries.len()
        invariant
            i <= entries@.len(),
            sorted_names(string_views(out@)),
            string_views(out@).to_multiset() == profile_entry_names(entries@.subrange(0, i as int)).to_multiset(),
        decreases entries.len() - i,
    {
        let ghost prefix = entries@.subrange(0, i as int);
        let ghost next = entries@.subrange(0, i + 1);
        assert(next.drop_last() =~= prefix);
        assert(next.last() == entries@[i as int]);
        let entry = &entries[i];
        let is_profile = match &entry.0 {
            Some(ext) => str_eq(ext.as_str(), PROFILE_EXTENSION),
            None => false,
        };
        if is_profile {
            match &entry.1 {
                Some(stem) => {
                    let name = stem.clone();
                    let n = out.len();
                    let mut p: usize = 0;
                    while p < n && str_le(out[p].as_str(), name.as_str())
                        invariant
                            n == out@.len(),
                            p <= n,
                            forall|q: int| 0 <= q < p ==> seq_le(#[trigger] out@[q]@, name@),
                        decreases n - p,
                    {
                        p = p + 1;
                    }
                    let ghost before = string_views(out@);
                    proof {
                        if p < n {
                            lemma_seq_le_total(out@[p as int]@, name@);
                        }
                    }
                    out.insert(p, name);
                    proof {
                        assert(string_views(out@) =~= before.insert(p as int, stem@));
                        assert(profile_entry_names(next) == profile_entry_names(prefix).push(stem@));
                        vstd::seq_lib::to_multiset_insert(before, p as int, stem@);
                        assert(string_views(out@).to_multiset() == before.to_multiset().insert(stem@));
                        profile_entry_names(prefix).to_multiset_ensures();
                        assert(profile_entry_names(prefix).push(stem@).to_multiset()
                            == profile_entry_names(prefix).to_multiset().insert(stem@));
                        assert forall|a: int, b: int| 0 <= a < b < string_views(out@).len() implies seq_le(
                            #[trigger] string_views(out@)[a],
                            #[trigger] string_views(out@)[b],
                        ) by {
                            let v = string_views(out@);
                            if b < p {
                                assert(v[a] == before[a] && v[b] == before[b]);
                            } else if b == p {
                                assert(v[a] == before[a]);
                            } else if a == p {
                                assert(v[b] == before[b - 1]);
                                if p < n {
                                    if b - 1 > p {
                                        assert(seq_le(before[p as int], before[b - 1]));
                                    } else {
                                        lemma_seq_le_reflexive(before[p as int]);
                                    }
                                    lemma_seq_le_transitive(stem@, before[p as int], before[b - 1]);
                                }
                            } else if a < p {
                                assert(v[a] == before[a] && v[b] == before[b - 1]);
                                assert(seq_le(before[a], stem@));
                                if p < n {
                                    if b - 1 > p {
                                        assert(seq_le(before[p as int], before[b - 1]));
                                    } else {
                                        lemma_seq_le_reflexive(before[p as int]);
                                    }
                                    lemma_seq_le_transitive(stem@, before[p as int], before[b - 1]);
                                }
                                lemma_seq_le_transitive(before[a], stem@, before[b - 1]);
                            } else {
                                assert(v[a] == before[a - 1] && v[b] == before[b - 1]);
                            }
                        }
                    }
                },
                None => {
                    assert(profile_entry_names(next) == profile_entry_names(prefix));
                },
            }
        } else {
            assert(profile_entry_names(next) == profile_entry_names(prefix));
        }
        i = i + 1;
    }
    assert(entries@.subrange(0, entries@.len() as int) =~= entries@);
    out
}

} // verus!
