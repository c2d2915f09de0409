use vstd::prelude::*;

use crate::text::{lemma_text_lt_total, lemma_text_lt_transitive, str_eq, text_less, text_lt};

verus! {

/// The texts of a list of strings.
pub open spec fn texts(v: Seq<String>) -> Seq<Seq<char>> {
    v.map_values(|x: String| x@)
}

/// Adds `x` to a set of order ids kept in a vector.
pub fn set_insert_id(v: &mut Vec<i64>, x: i64)
    ensures
        final(v)@.to_set() == old(v)@.to_set().insert(x),
{
    let mut i: usize = 0;
    while i < v.len()
        invariant
            i <= v@.len(),
            forall|k: int| 0 <= k < i ==> v@[k] != x,
        decreases v@.len() - i,
    {
        if v[i] == x {
            proof {
                assert(old(v)@.to_set().insert(x) =~= old(v)@.to_set());
            }
            return;
        }
        i = i + 1;
    }
    let ghost before = v@;
    v.push(x);
    proof {
        assert(v@.to_set() =~= before.to_set().insert(x)) by {
            assert forall|y: i64| v@.to_set().contains(y) <==> before.to_set().insert(x).contains(y) by {
                if v@.to_set().contains(y) {
                    let k = choose|k: int| 0 <= k < v@.len() && v@[k] == y;
                    if k < before.len() {
                        assert(before[k] == y);
                    }
                }
                if before.to_set().contains(y) {
                    let k = choose|k: int| 0 <= k < before.len() && before[k] == y;
                    assert(v@[k] == y);
                }
                if y == x {
                    assert(v@[before.len() as int] == x);
                }
            }
        }
    }
}

/// Removes `x` from a set of order ids kept in a vector.
pub fn set_remove_id(v: &mut Vec<i64>, x: i64)
    ensures
        final(v)@.to_set() == old(v)@.to_set().remove(x),
{
    let mut out: Vec<i64> = Vec::new();
    let mut i: usize = 0;
    while i < v.len()
        invariant
            i <= v@.len(),
            out@.to_set() == v@.take(i as int).to_set().remove(x),
        decreases v@.len() - i,
    {
        let y = v[i];
        let ghost before = out@;
        proof {
            assert(v@.take(i + 1) =~= v@.take(i as int).push(y));
        }
        if y != x {
            out.push(y);
            proof {
                assert(out@ =~= before.push(y));
                before.lemma_push_to_set_commute(y);
            }
        }
        proof {
            v@.take(i as int).lemma_push_to_set_commute(y);
            assert(v@.take(i + 1).to_set().remove(x) =~= (v@.take(i as int).to_set().insert(y)).remove(x));
            if y != x {
                assert(out@.to_set() =~= v@.take(i + 1).to_set().remove(x));
            } else {
                assert(out@.to_set() =~= v@.take(i + 1).to_set().remove(x));
            }
        }
        i = i + 1;
    }
    proof {
        assert(v@.take(v@.len() as int) =~= v@);
    }
    *v = out;
}

/// Adds `x` to a set of stop-order ids kept in a vector.
pub fn set_insert_text(v: &mut Vec<String>, x: &str)
    ensures
        texts(final(v)@).to_set() == texts(old(v)@).to_set().insert(x@),
{
    let mut i: usize = 0;
    while i < v.len()
        invariant
            i <= v@.len(),
            forall|k: int| 0 <= k < i ==> v@[k]@ != x@,
        decreases v@.len() - i,
    {
        if str_eq(v[i].as_str(), x) {
            proof {
                assert(texts(old(v)@)[i as int] == x@);
                assert(texts(old(v)@).to_set().insert(x@) =~= texts(old(v)@).to_set());
            }
            return;
        }
        i = i + 1;
    }
    let ghost before = texts(v@);
    v.push(String::from_str(x));
    proof {
        assert(texts(v@) =~= before.push(x@));
        before.lemma_push_to_set_commute(x@);
    }
}

/// Removes `x` from a set of stop-order ids kept in a vector.
pub fn set_remove_text(v: &mut Vec<String>, x: &str)
    ensures
        texts(final(v)@).to_set() == texts(old(v)@).to_set().remove(x@),
{
    let mut out: Vec<String> = Vec::new();
    let mut i: usize = 0;
    let ghost all = texts(v@);
    while i < v.len()
        invariant
            i <= v@.len(),
            all == texts(v@),
            texts(out@).to_set() == all.take(i as int).to_set().remove(x@),
        decreases v@.len() - i,
    {
        let same = str_eq(v[i].as_str(), x);
        let ghost y = all[i as int];
        let ghost before = texts(out@);
        proof {
            assert(all.take(i + 1) =~= all.take(i as int).push(y));
            all.take(i as int).lemma_push_to_set_commute(y);
        }
        if !same {
            out.push(v[i].clone());
            proof {
                assert(texts(out@) =~= before.push(y));
                before.lemma_push_to_set_commute(y);
            }
        }
        proof {
            assert(texts(out@).to_set() =~= all.take(i + 1).to_set().remove(x@));
        }
        i = i + 1;
    }
    proof {
        assert(all.take(v@.len() as int) =~= all);
    }
    *v = out;
}


/// Removes `x` from a set of request ids kept in a vector.
pub fn set_remove_request(v: &mut Vec<u128>, x: u128)
    ensures
        final(v)@.to_set() == old(v)@.to_set().remove(x),
{
    let mut out: Vec<u128> = Vec::new();
    let mut i: usize = 0;
    while i < v.len()
        invariant
            i <= v@.len(),
            out@.to_set() == v@.take(i as int).to_set().remove(x),
        decreases v@.len() - i,
    {
        let y = v[i];
        let ghost before = out@;
        proof {
            assert(v@.take(i + 1) =~= v@.take(i as int).push(y));
            v@.take(i as int).lemma_push_to_set_commute(y);
        }
        if y != x {
            out.push(y);
            proof {
                assert(out@ =~= before.push(y));
                before.lemma_push_to_set_commute(y);
            }
        }
        proof {
            assert(out@.to_set() =~= v@.take(i + 1).to_set().remove(x));
        }
        i = i + 1;
    }
    proof {
        assert(v@.take(v@.len() as int) =~= v@);
    }
    *v = out;
}


/// The texts are in strictly increasing lexicographic order.
pub open spec fn texts_sorted(s: Seq<Seq<char>>) -> bool {
    forall|i: int, j: int| 0 <= i < j < s.len() ==> text_lt(#[trigger] s[i], #[trigger] s[j])
}

/// Adds `x` to a set of texts kept in strictly increasing order.
pub fn sorted_insert_text(v: &mut Vec<String>, x: &str)
    requires
        texts_sorted(texts(old(v)@)),
    ensures
        texts_sorted(texts(final(v)@)),
        texts(final(v)@).to_set() == texts(old(v)@).to_set().insert(x@),
{
    let ghost s = texts(v@);
    let mut p: usize = 0;
    while p < v.len()
        invariant
            p <= v@.len(),
            s == texts(v@),
            forall|k: int| 0 <= k < p ==> text_lt(#[trigger] s[k], x@),
        ensures
            p <= v@.len(),
            s == texts(v@),
            forall|k: int| 0 <= k < p ==> text_lt(#[trigger] s[k], x@),
            p < s.len() ==> !text_lt(s[p as int], x@),
        decreases v@.len() - p,
    {
        let below = text_less(v[p].as_str(), x);
        proof {
            assert(s[p as int] == v@[p as int]@);
        }
        if !below {
            break;
        }
        p = p + 1;
    }
    if p < v.len() {
        let same = str_eq(v[p].as_str(), x);
        proof {
            assert(s[p as int] == v@[p as int]@);
        }
        if same {
            proof {
                assert(s.to_set().insert(x@) =~= s.to_set());
            }
            return;
        }
        proof {
            lemma_text_lt_total(s[p as int], x@);
        }
    }
    v.insert(p, String::from_str(x));
    proof {
        let t = texts(v@);
        assert(t =~= s.insert(p as int, x@));
        assert forall|i: int, j: int| 0 <= i < j < t.len() implies text_lt(
            #[trigger] t[i],
            #[trigger] t[j],
        ) by {
            if j < p {
                assert(t[i] == s[i] && t[j] == s[j]);
            } else if j == p {
                assert(t[i] == s[i] && t[j] == x@);
            } else if i == p {
                assert(t[j] == s[j - 1] && t[i] == x@);
                if j - 1 > p {
                    assert(text_lt(s[p as int], s[j - 1]));
                    lemma_text_lt_transitive(x@, s[p as int], s[j - 1]);
                }
            } else if i < p {
                assert(t[i] == s[i] && t[j] == s[j - 1]);
            } else {
                assert(t[i] == s[i - 1] && t[j] == s[j - 1]);
            }
        }
        assert forall|y: Seq<char>| t.to_set().contains(y) <==> s.to_set().insert(x@).contains(y) by {
            if t.to_set().contains(y) {
                let k = choose|k: int| 0 <= k < t.len() && t[k] == y;
                if k < p {
                    assert(s[k] == y);
                } else if k > p {
                    assert(s[k - 1] == y);
                }
            }
            if s.to_set().contains(y) {
                let k = choose|k: int| 0 <= k < s.len() && s[k] == y;
                if k < p {
                    assert(t[k] == y);
                } else {
                    assert(t[k + 1] == y);
                }
            }
            if y == x@ {
                assert(t[p as int] == y);
            }
        }
        assert(t.to_set() =~= s.to_set().insert(x@));
    }
}

/// Whether a set of texts kept in a vector holds `x`.
pub fn holds_text(v: &Vec<String>, x: &str) -> (b: bool)
    ensures
        b == texts(v@).to_set().contains(x@),
{
    let mut i: usize = 0;
    while i < v.len()
        invariant
            i <= v@.len(),
            forall|k: int| 0 <= k < i ==> v@[k]@ != x@,
        decreases v@.len() - i,
    {
        if str_eq(v[i].as_str(), x) {
            proof {
                assert(texts(v@)[i as int] == x@);
            }
            return true;
        }
        i = i + 1;
    }
    proof {
        if texts(v@).to_set().contains(x@) {
            let k = choose|k: int| 0 <= k < texts(v@).len() && texts(v@)[k] == x@;
            assert(v@[k]@ == x@);
        }
    }
    false
}

/// The order ids are in strictly increasing order.
pub open spec fn ids_ascending(s: Seq<i64>) -> bool {
    forall|i: int, j: int| 0 <= i < j < s.len() ==> #[trigger] s[i] < #[trigger] s[j]
}

/// Adds `x` to a set of order ids kept in strictly increasing order.
pub fn ascending_insert_id(v: &mut Vec<i64>, x: i64)
    requires
        ids_ascending(old(v)@),
    ensures
        ids_ascending(final(v)@),
        final(v)@.to_set() == old(v)@.to_set().insert(x),
{
    let ghost s = v@;
    let mut p: usize = 0;
    while p < v.len() && v[p] < x
        invariant
            p <= v@.len(),
            s == v@,
            forall|k: int| 0 <= k < p ==> #[trigger] s[k] < x,
        decreases v@.len() - p,
    {
        p = p + 1;
    }
    if p < v.len() && v[p] == x {
        proof {
            assert(s[p as int] == x);
            assert(s.to_set().insert(x) =~= s.to_set());
        }
        return;
    }
    v.insert(p, x);
    proof {
        let t = v@;
        assert(t =~= s.insert(p as int, x));
        assert forall|i: int, j: int| 0 <= i < j < t.len() implies #[trigger] t[i] < #[trigger] t[j] by {
            if j < p {
                assert(t[i] == s[i] && t[j] == s[j]);
            } else if j == p {
                assert(t[i] == s[i] && t[j] == x);
            } else if i == p {
                assert(t[j] == s[j - 1] && t[i] == x);
                if j - 1 > p {
                    assert(s[p as int] < s[j - 1]);
                }
            } else if i < p {
                assert(t[i] == s[i] && t[j] == s[j - 1]);
            } else {
                assert(t[i] == s[i - 1] && t[j] == s[j - 1]);
            }
        }
        assert forall|y: i64| t.to_set().contains(y) <==> s.to_set().insert(x).contains(y) by {
            if t.to_set().contains(y) {
                let k = choose|k: int| 0 <= k < t.len() && t[k] == y;
                if k < p {
                    assert(s[k] == y);
                } else if k > p {
                    assert(s[k - 1] == y);
                }
            }
            if s.to_set().contains(y) {
                let k = choose|k: int| 0 <= k < s.len() && s[k] == y;
                if k < p {
                    assert(t[k] == y);
                } else {
                    assert(t[k + 1] == y);
                }
            }
            if y == x {
                assert(t[p as int] == y);
            }
        }
        assert(t.to_set() =~= s.to_set().insert(x));
    }
}

/// The order ids of `v` in strictly increasing order, each once.
pub fn ascending_ids(v: &Vec<i64>) -> (r: Vec<i64>)
    ensures
        ids_ascending(r@),
        r@.to_set() == v@.to_set(),
{
    let mut r: Vec<i64> = Vec::new();
    let mut i: usize = 0;
    while i < v.len()
        invariant
            i <= v@.len(),
            ids_ascending(r@),
            r@.to_set() == v@.take(i as int).to_set(),
        decreases v@.len() - i,
    {
        ascending_insert_id(&mut r, v[i]);
        proof {
            assert(v@.take(i + 1) =~= v@.take(i as int).push(v@[i as int]));
            v@.take(i as int).lemma_push_to_set_commute(v@[i as int]);
        }
        i = i + 1;
    }
    proof {
        assert(v@.take(v@.len() as int) =~= v@);
    }
    r
}

/// The request ids are in strictly increasing order.
pub open spec fn requests_ascending(s: Seq<u128>) -> bool {
    forall|i: int, j: int| 0 <= i < j < s.len() ==> #[trigger] s[i] < #[trigger] s[j]
}

/// Adds `x` to a set of request ids kept in strictly increasing order.
pub fn ascending_insert_request(v: &mut Vec<u128>, x: u128)
    requires
        requests_ascending(old(v)@),
    ensures
        requests_ascending(final(v)@),
        final(v)@.to_set() == old(v)@.to_set().insert(x),
{
    let ghost s = v@;
    let mut p: usize = 0;
    while p < v.len() && v[p] < x
        invariant
            p <= v@.len(),
            s == v@,
            forall|k: int| 0 <= k < p ==> #[trigger] s[k] < x,
        decreases v@.len() - p,
    {
        p = p + 1;
    }
    if p < v.len() && v[p] == x {
        proof {
            assert(s[p as int] == x);
            assert(s.to_set().insert(x) =~= s.to_set());
        }
        return;
    }
    v.insert(p, x);
    proof {
        let t = v@;
        assert(t =~= s.insert(p as int, x));
        assert forall|i: int, j: int| 0 <= i < j < t.len() implies #[trigger] t[i] < #[trigger] t[j] by {
            if j < p {
                assert(t[i] == s[i] && t[j] == s[j]);
            } else if j == p {
                assert(t[i] == s[i] && t[j] == x);
            } else if i == p {
                assert(t[j] == s[j - 1] && t[i] == x);
                if j - 1 > p {
                    assert(s[p as int] < s[j - 1]);
                }
            } else if i < p {
                assert(t[i] == s[i] && t[j] == s[j - 1]);
            } else {
                assert(t[i] == s[i - 1] && t[j] == s[j - 1]);
            }
        }
        assert forall|y: u128| t.to_set().contains(y) <==> s.to_set().insert(x).contains(y) by {
            if t.to_set().contains(y) {
                let k = choose|k: int| 0 <= k < t.len() && t[k] == y;
                if k < p {
                    assert(s[k] == y);
                } else if k > p {
                    assert(s[k - 1] == y);
                }
            }
            if s.to_set().contains(y) {
                let k = choose|k: int| 0 <= k < s.len() && s[k] == y;
                if k < p {
                    assert(t[k] == y);
                } else {
                    assert(t[k + 1] == y);
                }
            }
            if y == x {
                assert(t[p as int] == y);
            }
        }
        assert(t.to_set() =~= s.to_set().insert(x));
    }
}

/// The request ids of `v` in strictly increasing order, each once.
pub fn ascending_requests(v: &Vec<u128>) -> (r: Vec<u128>)
    ensures
        requests_ascending(r@),
        r@.to_set() == v@.to_set(),
{
    let mut r: Vec<u128> = Vec::new();
    let mut i: usize = 0;
    while i < v.len()
        invariant
            i <= v@.len(),
            requests_ascending(r@),
            r@.to_set() == v@.take(i as int).to_set(),
        decreases v@.len() - i,
    {
        ascending_insert_request(&mut r, v[i]);
        proof {
            assert(v@.take(i + 1) =~= v@.take(i as int).push(v@[i as int]));
            v@.take(i as int).lemma_push_to_set_commute(v@[i as int]);
        }
        i = i + 1;
    }
    proof {
        assert(v@.take(v@.len() as int) =~= v@);
    }
    r
}

} // verus!
