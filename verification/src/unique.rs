//! Dropping repeated items, keeping the first of each.
use vstd::prelude::*;
use crate::video::Video;

verus! {

/// Some item of `s` has the given key.
pub open spec fn has_key<T>(s: Seq<T>, key: spec_fn(T) -> Seq<char>, k: Seq<char>) -> bool {
    exists|j: int| 0 <= j < s.len() && key(#[trigger] s[j]) == k
}

/// `s` keeps only the first item of each key, in order.
pub open spec fn dedup_by<T>(s: Seq<T>, key: spec_fn(T) -> Seq<char>) -> Seq<T>
    decreases s.len(),
{
    if s.len() == 0 {
        Seq::empty()
    } else {
        let d = dedup_by(s.drop_last(), key);
        if has_key(s.drop_last(), key, key(s.last())) {
            d
        } else {
            d.push(s.last())
        }
    }
}

/// The id of a video.
pub open spec fn video_id(v: Video) -> Seq<char> {
    v.id@
}

/// The text of a string.
pub open spec fn string_text(s: String) -> Seq<char> {
    s@
}

/// Strings keyed by their text.
pub open spec fn text_key() -> spec_fn(String) -> Seq<char> {
    |s: String| string_text(s)
}

/// The keys of the items kept are the keys of the items given.
proof fn lemma_dedup_keys<T>(s: Seq<T>, key: spec_fn(T) -> Seq<char>)
    ensures
        forall|k: Seq<char>| has_key(dedup_by(s, key), key, k) <==> has_key(s, key, k),
    decreases s.len(),
{
    if s.len() > 0 {
        let p = s.drop_last();
        lemma_dedup_keys(p, key);
        let d = dedup_by(p, key);
        let l = s.last();
        assert forall|k: Seq<char>| has_key(dedup_by(s, key), key, k) <==> has_key(s, key, k) by {
            if has_key(s, key, k) {
                let j = choose|j: int| 0 <= j < s.len() && key(#[trigger] s[j]) == k;
                if j < p.len() {
                    assert(p[j] == s[j]);
                    assert(has_key(p, key, k));
                    assert(has_key(d, key, k));
                    let m = choose|m: int| 0 <= m < d.len() && key(#[trigger] d[m]) == k;
                    if !has_key(p, key, key(l)) {
                        assert(d.push(l)[m] == d[m]);
                    }
                } else {
                    if !has_key(p, key, key(l)) {
                        assert(d.push(l)[d.len() as int] == l);
                    }
                }
            }
            if has_key(dedup_by(s, key), key, k) {
                if has_key(p, key, key(l)) {
                    assert(has_key(d, key, k));
                    assert(has_key(p, key, k));
                    let j = choose|j: int| 0 <= j < p.len() && key(#[trigger] p[j]) == k;
                    assert(s[j] == p[j]);
                } else {
                    let m = choose|m: int| 0 <= m < d.len() + 1 && key(#[trigger] d.push(l)[m]) == k;
                    if m < d.len() {
                        assert(d.push(l)[m] == d[m]);
                        assert(has_key(d, key, k));
                        assert(has_key(p, key, k));
                        let j = choose|j: int| 0 <= j < p.len() && key(#[trigger] p[j]) == k;
                        assert(s[j] == p[j]);
                    } else {
                        assert(s[s.len() - 1] == l);
                    }
                }
            }
        }
    }
}

/// No two items kept share a key.
proof fn lemma_dedup_distinct<T>(s: Seq<T>, key: spec_fn(T) -> Seq<char>)
    ensures
        forall|a: int, b: int| 0 <= a < b < dedup_by(s, key).len()
            ==> key(#[trigger] dedup_by(s, key)[a]) != key(#[trigger] dedup_by(s, key)[b]),
    decreases s.len(),
{
    if s.len() > 0 {
        let p = s.drop_last();
        lemma_dedup_distinct(p, key);
        lemma_dedup_keys(p, key);
        let d = dedup_by(p, key);
        if !has_key(p, key, key(s.last())) {
            let e = d.push(s.last());
            assert forall|a: int, b: int| 0 <= a < b < e.len() implies key(#[trigger] e[a]) != key(#[trigger] e[b]) by {
                assert(e[a] == d[a]);
                if b < d.len() {
                    assert(e[b] == d[b]);
                } else {
                    if key(e[a]) == key(e[b]) {
                        assert(has_key(d, key, key(s.last())));
                    }
                }
            }
        }
    }
}

/// Every item kept is an item given, and the items kept come in the order
/// in which they were given: the positions they were given at.
proof fn dedup_positions<T>(s: Seq<T>, key: spec_fn(T) -> Seq<char>) -> (idx: Seq<int>)
    ensures
        idx.len() == dedup_by(s, key).len(),
        forall|a: int| 0 <= a < idx.len() ==> 0 <= #[trigger] idx[a] < s.len()
            && dedup_by(s, key)[a] == s[idx[a]],
        forall|a: int, b: int| 0 <= a < b < idx.len() ==> #[trigger] idx[a] < #[trigger] idx[b],
        forall|a: int, j: int| 0 <= a < idx.len() && 0 <= j < idx[a] ==> key(#[trigger] s[j]) != key(s[#[trigger] idx[a]]),
    decreases s.len(),
{
    if s.len() == 0 {
        Seq::empty()
    } else {
        let p = s.drop_last();
        let idx = dedup_positions(p, key);
        let d = dedup_by(p, key);
        if has_key(p, key, key(s.last())) {
            assert forall|a: int| 0 <= a < idx.len() implies 0 <= #[trigger] idx[a] < s.len()
                && dedup_by(s, key)[a] == s[idx[a]] by {
                assert(p[idx[a]] == s[idx[a]]);
            }
            assert forall|a: int, j: int| 0 <= a < idx.len() && 0 <= j < idx[a] implies key(#[trigger] s[j]) != key(s[#[trigger] idx[a]]) by {
                assert(p[j] == s[j]);
                assert(p[idx[a]] == s[idx[a]]);
            }
            idx
        } else {
            let idx2 = idx.push(s.len() - 1);
            let e = d.push(s.last());
            assert forall|a: int| 0 <= a < idx2.len() implies 0 <= #[trigger] idx2[a] < s.len()
                && e[a] == s[idx2[a]] by {
                if a < idx.len() {
                    assert(idx2[a] == idx[a]);
                    assert(p[idx[a]] == s[idx[a]]);
                }
            }
            assert forall|a: int, b: int| 0 <= a < b < idx2.len() implies #[trigger] idx2[a] < #[trigger] idx2[b] by {
                assert(idx2[a] == idx[a]);
                if b < idx.len() {
                    assert(idx2[b] == idx[b]);
                }
            }
            assert forall|a: int, j: int| 0 <= a < idx2.len() && 0 <= j < idx2[a] implies key(#[trigger] s[j]) != key(s[#[trigger] idx2[a]]) by {
                if a < idx.len() {
                    assert(idx2[a] == idx[a]);
                    assert(p[j] == s[j]);
                    assert(p[idx[a]] == s[idx[a]]);
                } else {
                    assert(p[j] == s[j]);
                }
            }
            idx2
        }
    }
}

/// Dropping repeats keeps, in the order given, exactly one item for each
/// key that occurs: no key is lost, none is kept twice, and every item kept
/// was given, at increasing positions `idx`, as the first of its key.
pub proof fn lemma_dedup_by<T>(s: Seq<T>, key: spec_fn(T) -> Seq<char>) -> (idx: Seq<int>)
    ensures
        forall|k: Seq<char>| has_key(dedup_by(s, key), key, k) <==> has_key(s, key, k),
        forall|a: int, b: int| 0 <= a < b < dedup_by(s, key).len()
            ==> key(#[trigger] dedup_by(s, key)[a]) != key(#[trigger] dedup_by(s, key)[b]),
        idx.len() == dedup_by(s, key).len(),
        forall|a: int| 0 <= a < idx.len() ==> 0 <= #[trigger] idx[a] < s.len()
            && dedup_by(s, key)[a] == s[idx[a]],
        forall|a: int, b: int| 0 <= a < b < idx.len() ==> #[trigger] idx[a] < #[trigger] idx[b],
        forall|a: int, j: int| 0 <= a < idx.len() && 0 <= j < idx[a] ==> key(#[trigger] s[j]) != key(s[#[trigger] idx[a]]),
{
    lemma_dedup_keys(s, key);
    lemma_dedup_distinct(s, key);
    dedup_positions(s, key)
}

/// What is kept of a prefix is a prefix of what is kept of the whole.
pub proof fn lemma_dedup_prefix<T>(s: Seq<T>, key: spec_fn(T) -> Seq<char>, k: int)
    requires
        0 <= k <= s.len(),
    ensures
        dedup_by(s.take(k), key).len() <= dedup_by(s, key).len(),
        forall|i: int| 0 <= i < dedup_by(s.take(k), key).len()
            ==> #[trigger] dedup_by(s.take(k), key)[i] == dedup_by(s, key)[i],
    decreases s.len() - k,
{
    if k == s.len() {
        assert(s.take(k) =~= s);
    } else {
        let p = s.drop_last();
        assert(p.take(k) =~= s.take(k));
        lemma_dedup_prefix(p, key, k);
        let d = dedup_by(p, key);
        if !has_key(p, key, key(s.last())) {
            assert forall|i: int| 0 <= i < d.len() implies #[trigger] d.push(s.last())[i] == d[i] by {}
        }
    }
}

/// Items whose keys are all distinct are all kept, in order.
pub proof fn lemma_dedup_distinct_keeps<T>(s: Seq<T>, key: spec_fn(T) -> Seq<char>)
    requires
        forall|a: int, b: int| 0 <= a < b < s.len() ==> key(#[trigger] s[a]) != key(#[trigger] s[b]),
    ensures
        dedup_by(s, key) == s,
    decreases s.len(),
{
    if s.len() > 0 {
        let p = s.drop_last();
        assert forall|a: int, b: int| 0 <= a < b < p.len() implies key(#[trigger] p[a]) != key(#[trigger] p[b]) by {
            assert(p[a] == s[a] && p[b] == s[b]);
        }
        lemma_dedup_distinct_keeps(p, key);
        if has_key(p, key, key(s.last())) {
            let j = choose|j: int| 0 <= j < p.len() && key(#[trigger] p[j]) == key(s.last());
            assert(p[j] == s[j]);
            assert(s.last() == s[s.len() - 1]);
        }
        assert(p.push(s.last()) =~= s);
    }
}

/// Dropping repeats commutes with a map that keeps keys.
pub proof fn lemma_dedup_map<T, U>(
    s: Seq<T>,
    f: spec_fn(T) -> U,
    key: spec_fn(T) -> Seq<char>,
    key2: spec_fn(U) -> Seq<char>,
)
    requires
        forall|x: T| #[trigger] key2(f(x)) == key(x),
    ensures
        dedup_by(s.map_values(f), key2) == dedup_by(s, key).map_values(f),
    decreases s.len(),
{
    if s.len() > 0 {
        let p = s.drop_last();
        lemma_dedup_map(p, f, key, key2);
        assert(s.map_values(f).drop_last() =~= p.map_values(f));
        assert(s.map_values(f).last() == f(s.last()));
        assert(has_key(p.map_values(f), key2, key2(f(s.last()))) == has_key(p, key, key(s.last()))) by {
            if has_key(p, key, key(s.last())) {
                let j = choose|j: int| 0 <= j < p.len() && key(#[trigger] p[j]) == key(s.last());
                assert(key2(p.map_values(f)[j]) == key(p[j]));
            }
            if has_key(p.map_values(f), key2, key2(f(s.last()))) {
                let j = choose|j: int| 0 <= j < p.len() && key2(#[trigger] p.map_values(f)[j]) == key2(f(s.last()));
                assert(key2(p.map_values(f)[j]) == key(p[j]));
            }
        }
        assert(dedup_by(s, key).map_values(f) =~= dedup_by(s.map_values(f), key2));
    } else {
        assert(dedup_by(s, key).map_values(f) =~= dedup_by(s.map_values(f), key2));
    }
}

fn contains_id(vids: &Vec<Video>, id: &String) -> (r: bool)
    ensures
        r == has_key(vids@, |v: Video| video_id(v), id@),
{
    let mut i: usize = 0;
    while i < vids.len()
        invariant
            i <= vids.len(),
            forall|j: int| 0 <= j < i ==> (#[trigger] vids@[j]).id@ != id@,
        decreases vids.len() - i,
    {
        if vids[i].id == *id {
            return true;
        }
        i = i + 1;
    }
    false
}

/// The videos with repeated ids dropped, keeping the first of each.
pub fn unique_by_id(vids: &Vec<Video>) -> (r: Vec<Video>)
    ensures
        r@ == dedup_by(vids@, |v: Video| video_id(v)),
{
    let ghost key = |v: Video| video_id(v);
    let mut r: Vec<Video> = Vec::new();
    let mut k: usize = 0;
    while k < vids.len()
        invariant
            k <= vids.len(),
            key == (|v: Video| video_id(v)),
            r@ == dedup_by(vids@.take(k as int), key),
        decreases vids.len() - k,
    {
        let ghost pre = vids@.take(k as int);
        proof {
            lemma_dedup_keys(pre, key);
            assert(vids@.take(k + 1).drop_last() =~= pre);
            assert(vids@.take(k + 1).last() == vids@[k as int]);
        }
        if !contains_id(&r, &vids[k].id) {
            r.push(vids[k].clone());
        }
        k = k + 1;
    }
    assert(vids@.take(vids.len() as int) =~= vids@);
    r
}

fn contains_string(items: &Vec<String>, t: &String) -> (r: bool)
    ensures
        r == has_key(items@, text_key(), t@),
{
    let mut i: usize = 0;
    while i < items.len()
        invariant
            i <= items.len(),
            forall|j: int| 0 <= j < i ==> (#[trigger] items@[j])@ != t@,
        decreases items.len() - i,
    {
        if items[i] == *t {
            return true;
        }
        i = i + 1;
    }
    false
}

/// The strings with repeats dropped, keeping the first of each.
pub fn unique_strings(items: &Vec<String>) -> (r: Vec<String>)
    ensures
        r@ == dedup_by(items@, text_key()),
{
    let ghost key = text_key();
    let mut r: Vec<String> = Vec::new();
    let mut k: usize = 0;
    while k < items.len()
        invariant
            k <= items.len(),
            key == text_key(),
            r@ == dedup_by(items@.take(k as int), key),
        decreases items.len() - k,
    {
        let ghost pre = items@.take(k as int);
        proof {
            lemma_dedup_keys(pre, key);
            assert(items@.take(k + 1).drop_last() =~= pre);
            assert(items@.take(k + 1).last() == items@[k as int]);
        }
        if !contains_string(&r, &items[k]) {
            r.push(items[k].clone());
        }
        k = k + 1;
    }
    assert(items@.take(items.len() as int) =~= items@);
    r
}

} // verus!
