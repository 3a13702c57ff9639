//! Picking the latest rows of a log: those that started last come first.

use vstd::prelude::*;

verus! {

/// Whether the row at `i` comes before the row at `j` in a listing by start
/// time, latest first. Of two rows that started together the one written
/// earlier comes first.
pub open spec fn listed_before(started: Seq<int>, i: int, j: int) -> bool {
    started[i] > started[j] || (started[i] == started[j] && i < j)
}

/// Whether `picked` lists positions of `started` as a listing by start time
/// does, up to `picked.len()` rows: the positions are valid, in listing
/// order, and every position left out comes after every one listed.
pub open spec fn is_latest_listing(started: Seq<int>, picked: Seq<int>) -> bool {
    &&& forall|k: int| 0 <= k < picked.len() ==> 0 <= #[trigger] picked[k] < started.len()
    &&& forall|k: int, l: int|
        0 <= k < l < picked.len() ==> listed_before(
            started,
            #[trigger] picked[k],
            #[trigger] picked[l],
        )
    &&& forall|k: int, j: int|
        #![trigger picked[k], picked.contains(j)]
        0 <= k < picked.len() && 0 <= j < started.len() && !picked.contains(j) ==> listed_before(
            started,
            picked[k],
            j,
        )
}

/// The number of rows in a listing of at most `limit` rows out of `total`.
pub open spec fn listing_len(total: nat, limit: nat) -> nat {
    if limit < total {
        limit
    } else {
        total
    }
}

/// The positions of the latest rows, latest first, at most `limit` of them.
pub fn latest_positions(started: &Vec<i64>, limit: usize) -> (picked: Vec<usize>)
    ensures
        picked@.len() == listing_len(started@.len(), limit as nat),
        is_latest_listing(
            started@.map_values(|t: i64| t as int),
            picked@.map_values(|p: usize| p as int),
        ),
{
    let ghost times = started@.map_values(|t: i64| t as int);
    let n = started.len();
    let want = if limit < n {
        limit
    } else {
        n
    };
    let mut taken: Vec<bool> = Vec::new();
    let mut t: usize = 0;
    while t < n
        invariant
            t <= n,
            taken@.len() == t,
            forall|j: int| 0 <= j < t ==> !taken@[j],
        decreases n - t,
    {
        taken.push(false);
        t = t + 1;
    }
    let mut picked: Vec<usize> = Vec::new();
    while picked.len() < want
        invariant
            n == started@.len(),
            want <= n,
            times == started@.map_values(|t: i64| t as int),
            taken@.len() == n,
            picked@.len() <= want,
            forall|j: int|
                0 <= j < n ==> (#[trigger] taken@[j] <==> picked@.map_values(
                    |p: usize| p as int,
                ).contains(j)),
            forall|k: int| 0 <= k < picked@.len() ==> 0 <= #[trigger] picked@[k] < n,
            forall|k: int, l: int|
                0 <= k < l < picked@.len() ==> #[trigger] picked@[k] != #[trigger] picked@[l],
            is_latest_listing(times, picked@.map_values(|p: usize| p as int)),
        decreases want - picked.len(),
    {
        let ghost before = picked@.map_values(|p: usize| p as int);
        // Fewer rows are taken than there are, so one is left to take.
        let mut best: usize = 0;
        let mut found = false;
        let mut j: usize = 0;
        proof {
            lemma_some_untaken(taken@, before);
        }
        while j < n
            invariant
                j <= n,
                n == started@.len(),
                taken@.len() == n,
                times == started@.map_values(|t: i64| t as int),
                found ==> best < j && !taken@[best as int],
                found ==> forall|i: int|
                    0 <= i < j && !taken@[i] && i != best ==> listed_before(
                        times,
                        best as int,
                        i,
                    ),
                !found ==> forall|i: int| 0 <= i < j ==> taken@[i],
            decreases n - j,
        {
            if !taken[j] {
                if !found {
                    found = true;
                    best = j;
                } else if started[j] > started[best] {
                    assert forall|i: int|
                        0 <= i < j + 1 && !taken@[i] && i != j implies listed_before(
                        times,
                        j as int,
                        i,
                    ) by {
                        if i != best {
                            assert(listed_before(times, best as int, i));
                        }
                    }
                    best = j;
                }
            }
            j = j + 1;
        }
        assert(found);
        let ghost old_taken = taken@;
        taken.set(best, true);
        picked.push(best);
        proof {
            let after = picked@.map_values(|p: usize| p as int);
            assert(after =~= before.push(best as int));
            assert forall|i: int| 0 <= i < n implies (#[trigger] taken@[i] <==> after.contains(
                i,
            )) by {
                if i == best {
                    assert(after[before.len() as int] == i);
                } else {
                    if old_taken[i] {
                        let k = choose|k: int| 0 <= k < before.len() && before[k] == i;
                        assert(after[k] == i);
                    }
                    if after.contains(i) {
                        let k = choose|k: int| 0 <= k < after.len() && after[k] == i;
                        assert(k < before.len());
                        assert(before[k] == i);
                    }
                }
            }
            assert forall|k: int, l: int| 0 <= k < l < after.len() implies listed_before(
                times,
                #[trigger] after[k],
                #[trigger] after[l],
            ) by {
                if l == before.len() {
                    assert(!before.contains(best as int));
                    assert(listed_before(times, before[k], best as int));
                }
            }
            assert forall|k: int, i: int|
                #![trigger after[k], after.contains(i)]
                0 <= k < after.len() && 0 <= i < n && !after.contains(i) implies listed_before(
                times,
                after[k],
                i,
            ) by {
                assert(!taken@[i]);
                assert(!old_taken[i]);
                if k < before.len() {
                    assert(!before.contains(i));
                    assert(after[k] == before[k]);
                }
            }
            assert forall|k: int, l: int| 0 <= k < l < picked@.len() implies #[trigger] picked@[k]
                != #[trigger] picked@[l] by {
                if l == before.len() {
                    assert(before[k] == picked@[k]);
                    assert(before.contains(before[k]));
                }
            }
        }
    }
    picked
}

/// Of two rows at most one comes before the other, and no row comes before
/// itself.
pub proof fn lemma_listed_before_is_strict(started: Seq<int>, i: int, j: int)
    ensures
        !(listed_before(started, i, j) && listed_before(started, j, i)),
        !listed_before(started, i, i),
{
}

/// Where `a` and `b` differ at `i` and agree before it, the position that
/// `a` lists at `i` comes before the one that `b` lists there.
proof fn lemma_lists_the_earlier(started: Seq<int>, a: Seq<int>, b: Seq<int>, i: int)
    requires
        is_latest_listing(started, a),
        is_latest_listing(started, b),
        a.len() == b.len(),
        0 <= i < a.len(),
        forall|j: int| 0 <= j < i ==> a[j] == b[j],
        a[i] != b[i],
    ensures
        listed_before(started, a[i], b[i]),
{
    assert(0 <= b[i] < started.len());
    if a.contains(b[i]) {
        let l = choose|l: int| 0 <= l < a.len() && a[l] == b[i];
        if l < i {
            assert(b[l] == b[i]);
            assert(listed_before(started, b[l], b[i]));
        } else {
            assert(listed_before(started, a[i], a[l]));
        }
    } else {
        assert(listed_before(started, a[i], b[i]));
    }
}

/// Two listings of the same length agree up to `k`.
proof fn lemma_listings_agree_upto(started: Seq<int>, a: Seq<int>, b: Seq<int>, k: int)
    requires
        is_latest_listing(started, a),
        is_latest_listing(started, b),
        a.len() == b.len(),
        0 <= k <= a.len(),
    ensures
        forall|j: int| 0 <= j < k ==> a[j] == b[j],
    decreases k,
{
    if k > 0 {
        lemma_listings_agree_upto(started, a, b, k - 1);
        let i = k - 1;
        if a[i] != b[i] {
            lemma_lists_the_earlier(started, a, b, i);
            lemma_lists_the_earlier(started, b, a, i);
            lemma_listed_before_is_strict(started, a[i], b[i]);
        }
    }
}

/// There is one listing of each length: two lists of the same number of
/// positions that both list the latest rows, latest first, are the same.
pub proof fn lemma_latest_listing_is_unique(started: Seq<int>, a: Seq<int>, b: Seq<int>)
    requires
        is_latest_listing(started, a),
        is_latest_listing(started, b),
        a.len() == b.len(),
    ensures
        a == b,
{
    lemma_listings_agree_upto(started, a, b, a.len() as int);
    assert(a =~= b);
}

/// Where fewer positions are listed than there are rows, and a row is
/// marked exactly when it is listed, some row is not marked.
proof fn lemma_some_untaken(taken: Seq<bool>, picked: Seq<int>)
    requires
        picked.len() < taken.len(),
        forall|j: int| 0 <= j < taken.len() ==> (#[trigger] taken[j] <==> picked.contains(j)),
        forall|k: int| 0 <= k < picked.len() ==> 0 <= #[trigger] picked[k] < taken.len(),
    ensures
        exists|j: int| 0 <= j < taken.len() && !taken[j],
{
    if forall|j: int| 0 <= j < taken.len() ==> taken[j] {
        // Every position below the number of rows would be listed, in a list
        // shorter than that number.
        let all = Set::new(|j: int| 0 <= j < taken.len());
        assert(all =~= vstd::set_lib::set_int_range(0, taken.len() as int));
        vstd::set_lib::lemma_int_range(0, taken.len() as int);
        assert forall|j: int| all.contains(j) implies picked.to_set().contains(j) by {
            assert(taken[j]);
        }
        assert(all.subset_of(picked.to_set()));
        picked.lemma_cardinality_of_set();
        vstd::set_lib::lemma_len_subset(all, picked.to_set());
    }
}

} // verus!
