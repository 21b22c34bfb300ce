//! The environment of a build: a list of pairs read as a map.

use crate::text::str_eq;
use vstd::prelude::*;
use vstd::string::*;

verus! {

/// The value that a list of pairs gives a name: that of the last pair with
/// the name.
pub open spec fn last_value(vars: Seq<(String, String)>, key: Seq<char>) -> Option<Seq<char>>
    decreases vars.len(),
{
    if vars.len() == 0 {
        None
    } else if vars.last().0@ == key {
        Some(vars.last().1@)
    } else {
        last_value(vars.drop_last(), key)
    }
}

/// Some pair of the list has this name.
pub open spec fn has_key(vars: Seq<(String, String)>, key: Seq<char>) -> bool {
    exists|i: int| 0 <= i < vars.len() && (#[trigger] vars[i]).0@ == key
}

/// Some pair at or after `from` has this name.
pub open spec fn has_key_from(vars: Seq<(String, String)>, from: int, key: Seq<char>) -> bool {
    exists|m: int| from <= m < vars.len() && (#[trigger] vars[m]).0@ == key
}

/// No pair after the one at `k` has its name.
pub open spec fn is_last_of_key(vars: Seq<(String, String)>, k: int) -> bool {
    forall|m: int| k < m < vars.len() ==> (#[trigger] vars[m]).0@ != vars[k].0@
}

/// No two pairs have one name.
pub open spec fn keys_distinct(vars: Seq<(String, String)>) -> bool {
    forall|i: int, j: int|
        0 <= i < j < vars.len() ==> (#[trigger] vars[i]).0@ != (#[trigger] vars[j]).0@
}

/// The last pair with a name gives the name's value.
pub proof fn lemma_last_pair_gives_value(vars: Seq<(String, String)>, k: int)
    requires
        0 <= k < vars.len(),
        is_last_of_key(vars, k),
    ensures
        last_value(vars, vars[k].0@) == Some(vars[k].1@),
    decreases vars.len(),
{
    if k < vars.len() - 1 {
        let shorter = vars.drop_last();
        assert(vars[vars.len() - 1].0@ != vars[k].0@);
        assert forall|m: int| k < m < shorter.len() implies (#[trigger] shorter[m]).0@
            != shorter[k].0@ by {
            assert(shorter[m] == vars[m]);
        }
        lemma_last_pair_gives_value(shorter, k);
    }
}

/// Reads a list of pairs as a map: every name of the list is kept once, with
/// the value of its last pair. The pairs keep the order of those last pairs.
pub fn env_map(vars: &Vec<(String, String)>) -> (r: Vec<(String, String)>)
    ensures
        keys_distinct(r@),
        forall|i: int|
            0 <= i < r@.len() ==> last_value(vars@, (#[trigger] r@[i]).0@) == Some(r@[i].1@),
        forall|k: int| 0 <= k < vars@.len() ==> has_key(r@, (#[trigger] vars@[k]).0@),
{
    let n = vars.len();
    let mut out: Vec<(String, String)> = Vec::new();
    let ghost mut src: Seq<int> = Seq::empty();
    let mut k: usize = 0;
    while k < n
        invariant
            n == vars@.len(),
            k <= n,
            out@.len() == src.len(),
            forall|i: int|
                0 <= i < src.len() ==> 0 <= (#[trigger] src[i]) < k && out@[i].0@ == vars@[src[i]].0@
                    && out@[i].1@ == vars@[src[i]].1@ && is_last_of_key(vars@, src[i]),
            forall|i: int, j: int| 0 <= i < j < src.len() ==> src[i] < src[j],
            forall|p: int|
                0 <= p < k ==> has_key(out@, (#[trigger] vars@[p]).0@) || has_key_from(
                    vars@,
                    k as int,
                    vars@[p].0@,
                ),
        decreases n - k,
    {
        let mut later = false;
        let mut m: usize = k + 1;
        while m < n && !later
            invariant
                n == vars@.len(),
                k < n,
                k < m <= n,
                !later ==> forall|q: int| k < q < m ==> (#[trigger] vars@[q]).0@ != vars@[k as int].0@,
                later ==> has_key_from(vars@, k + 1, vars@[k as int].0@),
            decreases n - m + (if later { 0int } else { 1int }),
        {
            if str_eq(vars[m].0.as_str(), vars[k].0.as_str()) {
                later = true;
                assert(k + 1 <= m < vars@.len() && vars@[m as int].0@ == vars@[k as int].0@);
            } else {
                m = m + 1;
            }
        }
        let ghost before = out@;
        if !later {
            out.push((vars[k].0.clone(), vars[k].1.clone()));
            proof {
                src = src.push(k as int);
                assert(is_last_of_key(vars@, k as int));
                assert(forall|i: int| 0 <= i < before.len() ==> out@[i] == before[i]);
            }
        }
        proof {
            assert forall|p: int| 0 <= p < k + 1 implies has_key(out@, (#[trigger] vars@[p]).0@)
                || has_key_from(vars@, k + 1, vars@[p].0@) by {
                let key = vars@[p].0@;
                if p < k && has_key(before, key) {
                    let i = choose|i: int| 0 <= i < before.len() && (#[trigger] before[i]).0@ == key;
                    assert(out@[i].0@ == key);
                } else {
                    if p < k {
                        let q = choose|q: int|
                            k <= q < vars@.len() && (#[trigger] vars@[q]).0@ == key;
                        if q > k {
                            assert(k + 1 <= q < vars@.len() && vars@[q].0@ == key);
                        }
                    }
                    if !has_key_from(vars@, k + 1, key) {
                        assert(vars@[k as int].0@ == key);
                        assert(!later);
                        assert(out@[out@.len() - 1].0@ == key);
                    }
                }
            }
        }
        k = k + 1;
    }
    proof {
        assert forall|i: int, j: int| 0 <= i < j < out@.len() implies (#[trigger] out@[i]).0@ != (
        #[trigger] out@[j]).0@ by {
            assert(src[i] < src[j]);
            assert(is_last_of_key(vars@, src[i]));
            assert(vars@[src[j]].0@ != vars@[src[i]].0@);
        }
        assert forall|i: int| 0 <= i < out@.len() implies last_value(
            vars@,
            (#[trigger] out@[i]).0@,
        ) == Some(out@[i].1@) by {
            lemma_last_pair_gives_value(vars@, src[i]);
        }
        assert forall|p: int| 0 <= p < vars@.len() implies has_key(
            out@,
            (#[trigger] vars@[p]).0@,
        ) by {
            assert(!has_key_from(vars@, n as int, vars@[p].0@));
        }
    }
    out
}

} // verus!
