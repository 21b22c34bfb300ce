//! Release pruning: which release directories go when newer ones exist.

use crate::text::{all_in, digits_value, is_digit, str_all_in, str_eq, CharClass};
use vstd::prelude::*;
use vstd::string::*;

verus! {

/// One entry of a releases directory.
#[derive(Debug)]
pub struct ReleaseEntry {
    /// The entry's file name.
    pub name: String,
    pub is_dir: bool,
    /// The entry's physical absolute path, with every symbolic link resolved.
    pub canonical: String,
}

#[derive(Clone, Copy, Debug)]
pub struct SystemReleaseManager;

/// A release is named by fourteen ASCII digits.
pub open spec fn is_release_name(name: Seq<char>) -> bool {
    name.len() == 14 && all_in(name, CharClass::Digit)
}

/// A release is a directory with a release name.
pub open spec fn is_release(e: ReleaseEntry) -> bool {
    e.is_dir && is_release_name(e.name@)
}

/// The moment that a release's name spells. Among names of one length the
/// order of these numbers is the lexicographic order of the names.
pub open spec fn stamp(e: ReleaseEntry) -> nat {
    digits_value(e.name@)
}

/// Entry `i` sorts before entry `j`: it is older, or as old and listed first.
pub open spec fn older(entries: Seq<ReleaseEntry>, i: int, j: int) -> bool {
    stamp(entries[i]) < stamp(entries[j]) || (stamp(entries[i]) == stamp(entries[j]) && i < j)
}

/// How many releases among the first `n` entries sort after entry `j`.
pub open spec fn newer_among(entries: Seq<ReleaseEntry>, j: int, n: int) -> nat
    decreases n,
{
    if n <= 0 {
        0
    } else {
        newer_among(entries, j, n - 1) + if is_release(entries[n - 1]) && older(
            entries,
            j,
            n - 1,
        ) {
            1nat
        } else {
            0nat
        }
    }
}

/// How many releases there are among the first `n` entries.
pub open spec fn releases_among(entries: Seq<ReleaseEntry>, n: int) -> nat
    decreases n,
{
    if n <= 0 {
        0
    } else {
        releases_among(entries, n - 1) + if is_release(entries[n - 1]) {
            1nat
        } else {
            0nat
        }
    }
}

/// The entry is the active release: `current` resolves to its physical path.
pub open spec fn is_active(e: ReleaseEntry, active: Option<Seq<char>>) -> bool {
    active is Some && e.canonical@ == active.unwrap()
}

/// The path that `current` resolves to, if it resolves.
pub open spec fn path_view(active: Option<&str>) -> Option<Seq<char>> {
    match active {
        Some(a) => Some(a@),
        None => None,
    }
}

/// Entry `j` is pruned: it is a release, at least `keep` releases sort after
/// it, and it is not the active one.
pub open spec fn prunable(
    entries: Seq<ReleaseEntry>,
    active: Option<Seq<char>>,
    keep: nat,
    j: int,
) -> bool {
    &&& 0 <= j < entries.len()
    &&& is_release(entries[j])
    &&& newer_among(entries, j, entries.len() as int) >= keep
    &&& !is_active(entries[j], active)
}

/// How many of the outcomes are successes.
pub open spec fn successes(outcomes: Seq<bool>) -> nat
    decreases outcomes.len(),
{
    if outcomes.len() == 0 {
        0
    } else {
        successes(outcomes.drop_last()) + if outcomes.last() {
            1nat
        } else {
            0nat
        }
    }
}

pub open spec fn pow10(n: nat) -> nat
    decreases n,
{
    if n == 0 {
        1
    } else {
        10 * pow10((n - 1) as nat)
    }
}

proof fn lemma_pow10_grows(i: nat, j: nat)
    requires
        i <= j,
    ensures
        pow10(i) <= pow10(j),
    decreases j,
{
    if i < j {
        lemma_pow10_grows(i, (j - 1) as nat);
    }
}

proof fn lemma_pow10_13()
    ensures
        pow10(13) == 10_000_000_000_000,
{
    reveal_with_fuel(pow10, 15);
}

/// The digit that a character stands for.
fn digit_of(c: char) -> (d: u64)
    requires
        is_digit(c),
    ensures
        d == c as u32 - '0' as u32,
        d <= 9,
{
    (c as u32 - '0' as u32) as u64
}

/// Reads a release name as a number; `None` for any other name.
pub fn release_stamp(name: &str) -> (r: Option<u64>)
    ensures
        r is Some <==> is_release_name(name@),
        r is Some ==> r.unwrap() == digits_value(name@),
{
    if name.unicode_len() != 14 || !str_all_in(name, CharClass::Digit) {
        return None;
    }
    let mut acc: u64 = 0;
    let mut i: usize = 0;
    assert(name@.subrange(0, 0) =~= Seq::<char>::empty());
    while i < 14
        invariant
            i <= 14,
            name@.len() == 14,
            all_in(name@, CharClass::Digit),
            acc == digits_value(name@.subrange(0, i as int)),
            acc < pow10(i as nat),
        decreases 14 - i,
    {
        let d = digit_of(name.get_char(i));
        proof {
            lemma_pow10_grows(i as nat, 13);
            lemma_pow10_13();
            let next = name@.subrange(0, i + 1);
            assert(next.drop_last() =~= name@.subrange(0, i as int));
            assert(next.last() == name@[i as int]);
        }
        acc = acc * 10 + d;
        i = i + 1;
    }
    assert(name@.subrange(0, 14) =~= name@);
    Some(acc)
}

/// No entry has more releases after it than there are releases, and a release
/// has fewer.
pub proof fn lemma_newer_is_bounded(entries: Seq<ReleaseEntry>, j: int, n: int)
    requires
        0 <= j < entries.len(),
        0 <= n <= entries.len(),
    ensures
        newer_among(entries, j, n) <= releases_among(entries, n),
        j < n && is_release(entries[j]) ==> newer_among(entries, j, n) < releases_among(
            entries,
            n,
        ),
    decreases n,
{
    if n > 0 {
        lemma_newer_is_bounded(entries, j, n - 1);
    }
}

/// The two names agree before place `k`, and there `a` has the lesser
/// character.
pub open spec fn differs_first_at(a: Seq<char>, b: Seq<char>, k: int) -> bool {
    &&& 0 <= k < a.len()
    &&& k < b.len()
    &&& a.subrange(0, k) == b.subrange(0, k)
    &&& a[k] < b[k]
}

/// Of two names of one length, `a` comes first in lexicographic order.
pub open spec fn name_before(a: Seq<char>, b: Seq<char>) -> bool {
    exists|k: int| #[trigger] differs_first_at(a, b, k)
}

/// Among names of one length that are made of digits, the order of the
/// numbers they spell is the lexicographic order of the names, and two names
/// spell one number only where they are one name.
pub proof fn lemma_stamp_order_is_name_order(a: Seq<char>, b: Seq<char>)
    requires
        a.len() == b.len(),
        all_in(a, CharClass::Digit),
        all_in(b, CharClass::Digit),
    ensures
        digits_value(a) < digits_value(b) <==> name_before(a, b),
        digits_value(a) == digits_value(b) <==> a == b,
    decreases a.len(),
{
    let n = a.len() as int;
    if n == 0 {
        assert(a =~= b);
        assert(forall|k: int| !differs_first_at(a, b, k));
    } else {
        let a1 = a.drop_last();
        let b1 = b.drop_last();
        assert forall|i: int| 0 <= i < a1.len() implies crate::text::allows(
            CharClass::Digit,
            #[trigger] a1[i],
        ) by {
            assert(a1[i] == a[i]);
        }
        assert forall|i: int| 0 <= i < b1.len() implies crate::text::allows(
            CharClass::Digit,
            #[trigger] b1[i],
        ) by {
            assert(b1[i] == b[i]);
        }
        lemma_stamp_order_is_name_order(a1, b1);
        assert(crate::text::allows(CharClass::Digit, a[n - 1]));
        assert(crate::text::allows(CharClass::Digit, b[n - 1]));
        let da = a.last() as u32 - '0' as u32;
        let db = b.last() as u32 - '0' as u32;
        assert(0 <= da <= 9 && 0 <= db <= 9);
        assert((a.last() < b.last()) == (da < db));
        assert((a.last() == b.last()) == (da == db));
        assert(a1 =~= a.subrange(0, n - 1));
        assert(b1 =~= b.subrange(0, n - 1));
        if name_before(a1, b1) {
            let k = choose|k: int| #[trigger] differs_first_at(a1, b1, k);
            assert(a.subrange(0, k) =~= a1.subrange(0, k));
            assert(b.subrange(0, k) =~= b1.subrange(0, k));
            assert(a[k] == a1[k] && b[k] == b1[k]);
            assert(differs_first_at(a, b, k));
        }
        if a1 == b1 && a.last() < b.last() {
            assert(differs_first_at(a, b, n - 1));
        }
        if name_before(a, b) {
            let k = choose|k: int| #[trigger] differs_first_at(a, b, k);
            if k < n - 1 {
                assert(a1.subrange(0, k) =~= a.subrange(0, k));
                assert(b1.subrange(0, k) =~= b.subrange(0, k));
                assert(a[k] == a1[k] && b[k] == b1[k]);
                assert(differs_first_at(a1, b1, k));
            } else {
                assert(a1 == b1);
            }
        }
        if a1 == b1 && a.last() == b.last() {
            assert(a =~= a1.push(a.last()));
            assert(b =~= b1.push(b.last()));
        }
    }
}

/// The active release is never pruned, however old it is.
pub proof fn lemma_active_release_is_kept(
    entries: Seq<ReleaseEntry>,
    active: Seq<char>,
    keep: nat,
    j: int,
)
    requires
        0 <= j < entries.len(),
        entries[j].canonical@ == active,
    ensures
        !prunable(entries, Some(active), keep, j),
{
}

/// Where no more releases exist than are to be kept, none is pruned.
pub proof fn lemma_few_releases_are_all_kept(
    entries: Seq<ReleaseEntry>,
    active: Option<Seq<char>>,
    keep: nat,
    j: int,
)
    requires
        releases_among(entries, entries.len() as int) <= keep,
    ensures
        !prunable(entries, active, keep, j),
{
    if 0 <= j < entries.len() {
        lemma_newer_is_bounded(entries, j, entries.len() as int);
    }
}

impl SystemReleaseManager {
    /// Picks the releases to delete, by their places in `entries`, the oldest
    /// first: every release that has at least `keep_count` releases after it,
    /// but for the one whose physical path is `active`, the target of
    /// `current`. Where there are no more than `keep_count` releases, none is
    /// picked.
    pub fn prune_old_releases(
        &self,
        entries: &Vec<ReleaseEntry>,
        active: Option<&str>,
        keep_count: usize,
    ) -> (r: Vec<usize>)
        ensures
            forall|k: int|
                0 <= k < r@.len() ==> prunable(
                    entries@,
                    path_view(active),
                    keep_count as nat,
                    #[trigger] r@[k] as int,
                ),
            forall|j: int|
                #[trigger] prunable(entries@, path_view(active), keep_count as nat, j)
                    ==> exists|k: int| 0 <= k < r@.len() && #[trigger] r@[k] == j,
            forall|k: int, l: int|
                0 <= k < l < r@.len() ==> older(entries@, r@[k] as int, r@[l] as int),
            forall|k: int|
                0 <= k < r@.len() && active is Some ==> entries@[#[trigger] r@[k] as int].canonical@
                    != active.unwrap()@,
            releases_among(entries@, entries@.len() as int) <= keep_count ==> r@.len() == 0,
    {
        let ghost act: Option<Seq<char>> = path_view(active);
        let n = entries.len();
        let mut stamps: Vec<Option<u64>> = Vec::new();
        let mut i: usize = 0;
        while i < n
            invariant
                n == entries@.len(),
                i <= n,
                stamps@.len() == i,
                forall|k: int|
                    0 <= k < i ==> ((#[trigger] stamps@[k]) is Some <==> is_release(entries@[k])),
                forall|k: int|
                    0 <= k < i && stamps@[k] is Some ==> (#[trigger] stamps@[k]).unwrap() == stamp(
                        entries@[k],
                    ),
            decreases n - i,
        {
            let s = if entries[i].is_dir {
                release_stamp(entries[i].name.as_str())
            } else {
                None
            };
            stamps.push(s);
            i = i + 1;
        }
        let mut picked: Vec<usize> = Vec::new();
        let mut j: usize = 0;
        while j < n
            invariant
                n == entries@.len(),
                stamps@.len() == n,
                j <= n,
                act == path_view(active),
                forall|k: int|
                    0 <= k < n ==> ((#[trigger] stamps@[k]) is Some <==> is_release(entries@[k])),
                forall|k: int|
                    0 <= k < n && stamps@[k] is Some ==> (#[trigger] stamps@[k]).unwrap() == stamp(
                        entries@[k],
                    ),
                forall|k: int|
                    0 <= k < picked@.len() ==> (#[trigger] picked@[k]) < j && prunable(
                        entries@,
                        act,
                        keep_count as nat,
                        picked@[k] as int,
                    ),
                forall|m: int|
                    0 <= m < j && #[trigger] prunable(entries@, act, keep_count as nat, m)
                        ==> exists|k: int| 0 <= k < picked@.len() && #[trigger] picked@[k] == m,
                forall|k: int, l: int|
                    0 <= k < l < picked@.len() ==> older(
                        entries@,
                        picked@[k] as int,
                        picked@[l] as int,
                    ),
            decreases n - j,
        {
            let ghost before = picked@;
            let ghost mut place: int = -1;
            match stamps[j] {
                Some(mine) => {
                    let newer = self.count_newer(&stamps, j, mine, Ghost(entries@));
                    let live = match active {
                        Some(a) => str_eq(entries[j].canonical.as_str(), a),
                        None => false,
                    };
                    assert(live == is_active(entries@[j as int], act));
                    if newer >= keep_count && !live {
                        let p = self.place_of(&stamps, &picked, j, mine, Ghost(entries@));
                        picked.insert(p, j);
                        proof {
                            place = p as int;
                        }
                    }
                },
                None => {},
            }
            proof {
                if place >= 0 {
                    assert(picked@ == before.insert(place, j));
                    assert(picked@[place] == j);
                    assert forall|k: int| 0 <= k < picked@.len() implies (#[trigger] picked@[k])
                        < j + 1 && prunable(entries@, act, keep_count as nat, picked@[k] as int) by {
                        if k < place {
                            assert(picked@[k] == before[k]);
                        } else if k > place {
                            assert(picked@[k] == before[k - 1]);
                        }
                    }
                    assert forall|k: int, l: int| 0 <= k < l < picked@.len() implies older(
                        entries@,
                        picked@[k] as int,
                        picked@[l] as int,
                    ) by {
                        if k < place {
                            assert(picked@[k] == before[k]);
                        } else if k > place {
                            assert(picked@[k] == before[k - 1]);
                        }
                        if l < place {
                            assert(picked@[l] == before[l]);
                        } else if l > place {
                            assert(picked@[l] == before[l - 1]);
                            if l - 1 > place {
                                assert(older(entries@, before[place] as int, before[l - 1] as int));
                            }
                        }
                    }
                } else {
                    assert(picked@ == before);
                }
                assert forall|m: int|
                    0 <= m < j + 1 && #[trigger] prunable(
                        entries@,
                        act,
                        keep_count as nat,
                        m,
                    ) implies exists|k: int|
                    0 <= k < picked@.len() && #[trigger] picked@[k] == m by {
                    if m < j {
                        let k = choose|k: int| 0 <= k < before.len() && #[trigger] before[k] == m;
                        if place >= 0 && k >= place {
                            assert(picked@[k + 1] == before[k]);
                        } else {
                            assert(picked@[k] == before[k]);
                        }
                    } else {
                        assert(picked@[place] == j);
                    }
                }
            }
            j = j + 1;
        }
        proof {
            if releases_among(entries@, n as int) <= keep_count && picked@.len() > 0 {
                let first = picked@[0];
                assert(prunable(entries@, act, keep_count as nat, first as int));
                lemma_newer_is_bounded(entries@, first as int, n as int);
            }
        }
        picked
    }

    /// Counts the releases that sort after the one at `j`.
    fn count_newer(
        &self,
        stamps: &Vec<Option<u64>>,
        j: usize,
        mine: u64,
        Ghost(entries): Ghost<Seq<ReleaseEntry>>,
    ) -> (newer: usize)
        requires
            stamps@.len() == entries.len(),
            j < stamps@.len(),
            mine == stamp(entries[j as int]),
            forall|k: int|
                0 <= k < stamps@.len() ==> ((#[trigger] stamps@[k]) is Some <==> is_release(
                    entries[k],
                )),
            forall|k: int|
                0 <= k < stamps@.len() && stamps@[k] is Some ==> (#[trigger] stamps@[k]).unwrap()
                    == stamp(entries[k]),
        ensures
            newer == newer_among(entries, j as int, entries.len() as int),
    {
        let n = stamps.len();
        let mut newer: usize = 0;
        let mut m: usize = 0;
        while m < n
            invariant
                n == entries.len(),
                stamps@.len() == n,
                j < n,
                m <= n,
                newer <= m,
                mine == stamp(entries[j as int]),
                newer == newer_among(entries, j as int, m as int),
                forall|k: int|
                    0 <= k < n ==> ((#[trigger] stamps@[k]) is Some <==> is_release(entries[k])),
                forall|k: int|
                    0 <= k < n && stamps@[k] is Some ==> (#[trigger] stamps@[k]).unwrap() == stamp(
                        entries[k],
                    ),
            decreases n - m,
        {
            match stamps[m] {
                Some(other) => {
                    if mine < other || (mine == other && j < m) {
                        newer = newer + 1;
                    }
                },
                None => {},
            }
            m = m + 1;
        }
        newer
    }

    /// Finds where the release at `j` goes among those picked, which are
    /// sorted: behind all that sort before it.
    fn place_of(
        &self,
        stamps: &Vec<Option<u64>>,
        picked: &Vec<usize>,
        j: usize,
        mine: u64,
        Ghost(entries): Ghost<Seq<ReleaseEntry>>,
    ) -> (p: usize)
        requires
            stamps@.len() == entries.len(),
            j < stamps@.len(),
            mine == stamp(entries[j as int]),
            forall|k: int|
                0 <= k < picked@.len() ==> (#[trigger] picked@[k]) < j && is_release(
                    entries[picked@[k] as int],
                ),
            forall|k: int|
                0 <= k < stamps@.len() ==> ((#[trigger] stamps@[k]) is Some <==> is_release(
                    entries[k],
                )),
            forall|k: int|
                0 <= k < stamps@.len() && stamps@[k] is Some ==> (#[trigger] stamps@[k]).unwrap()
                    == stamp(entries[k]),
            forall|k: int, l: int|
                0 <= k < l < picked@.len() ==> older(entries, picked@[k] as int, picked@[l] as int),
        ensures
            p <= picked@.len(),
            forall|k: int| 0 <= k < p ==> older(entries, #[trigger] picked@[k] as int, j as int),
            forall|k: int|
                p <= k < picked@.len() ==> older(entries, j as int, #[trigger] picked@[k] as int),
    {
        let mut p: usize = 0;
        while p < picked.len()
            invariant
                p <= picked@.len(),
                stamps@.len() == entries.len(),
                j < stamps@.len(),
                mine == stamp(entries[j as int]),
                forall|k: int|
                    0 <= k < picked@.len() ==> (#[trigger] picked@[k]) < j && is_release(
                        entries[picked@[k] as int],
                    ),
                forall|k: int|
                    0 <= k < stamps@.len() ==> ((#[trigger] stamps@[k]) is Some <==> is_release(
                        entries[k],
                    )),
                forall|k: int|
                    0 <= k < stamps@.len() && stamps@[k] is Some ==> (
                    #[trigger] stamps@[k]).unwrap() == stamp(entries[k]),
                forall|k: int, l: int|
                    0 <= k < l < picked@.len() ==> older(
                        entries,
                        picked@[k] as int,
                        picked@[l] as int,
                    ),
                forall|k: int| 0 <= k < p ==> older(entries, #[trigger] picked@[k] as int, j as int),
            decreases picked@.len() - p,
        {
            let other = picked[p];
            let theirs = match stamps[other] {
                Some(t) => t,
                None => 0,
            };
            assert(theirs == stamp(entries[other as int]));
            if theirs < mine || (theirs == mine && other < j) {
                p = p + 1;
            } else {
                assert(older(entries, j as int, picked@[p as int] as int));
                assert forall|k: int| p <= k < picked@.len() implies older(
                    entries,
                    j as int,
                    #[trigger] picked@[k] as int,
                ) by {
                    if k > p {
                        assert(older(entries, picked@[p as int] as int, picked@[k] as int));
                    }
                }
                return p;
            }
        }
        p
    }

    /// Counts the deletions that succeeded.
    pub fn count_deleted(&self, outcomes: &Vec<bool>) -> (r: usize)
        ensures
            r == successes(outcomes@),
    {
        let mut count: usize = 0;
        let mut i: usize = 0;
        assert(outcomes@.subrange(0, 0) =~= Seq::<bool>::empty());
        while i < outcomes.len()
            invariant
                i <= outcomes.len(),
                count <= i,
                count == successes(outcomes@.subrange(0, i as int)),
            decreases outcomes.len() - i,
        {
            proof {
                let next = outcomes@.subrange(0, i + 1);
                assert(next.drop_last() =~= outcomes@.subrange(0, i as int));
                assert(next.last() == outcomes@[i as int]);
            }
            if outcomes[i] {
                count = count + 1;
            }
            i = i + 1;
        }
        assert(outcomes@.subrange(0, i as int) =~= outcomes@);
        count
    }
}

} // verus!
