//! Which old deployments to delete after a publish: every directory but the
//! active one and the two most recently modified of the rest.

use vstd::prelude::*;

verus! {

/// How many deployments besides the active one are kept.
pub const KEPT: usize = 2;

/// An entry of a site's `deployments` directory.
#[derive(Debug)]
pub struct Entry {
    pub path: String,
    /// Last modification time; larger is more recent.
    pub modified: u64,
    pub is_dir: bool,
}

/// Whether entry `i` may be deleted at all: a directory other than the active one.
pub open spec fn is_candidate(es: Seq<Entry>, active: Seq<char>, i: int) -> bool {
    es[i].is_dir && es[i].path@ != active
}

/// Whether entry `j` counts as more recent than entry `i`: a later time, or
/// the same time and a later place in the listing.
pub open spec fn outranks(es: Seq<Entry>, j: int, i: int) -> bool {
    es[j].modified > es[i].modified || (es[j].modified == es[i].modified && j > i)
}

/// How many of the first `n` entries are candidates more recent than entry `i`.
pub open spec fn rank_upto(es: Seq<Entry>, active: Seq<char>, i: int, n: int) -> nat
    decreases n,
{
    if n <= 0 {
        0
    } else {
        rank_upto(es, active, i, n - 1) + if is_candidate(es, active, n - 1) && outranks(es, n - 1, i) {
            1nat
        } else {
            0nat
        }
    }
}

/// How many candidates are more recent than entry `i`.
pub open spec fn rank(es: Seq<Entry>, active: Seq<char>, i: int) -> nat {
    rank_upto(es, active, i, es.len() as int)
}

/// Whether entry `i` is deleted: a candidate with at least two more recent candidates.
pub open spec fn is_retired(es: Seq<Entry>, active: Seq<char>, i: int) -> bool {
    is_candidate(es, active, i) && rank(es, active, i) >= KEPT
}

/// The indices of the deleted entries among the first `n`, in listing order.
pub open spec fn retired_upto(es: Seq<Entry>, active: Seq<char>, n: int) -> Seq<int>
    decreases n,
{
    if n <= 0 {
        Seq::empty()
    } else if is_retired(es, active, n - 1) {
        retired_upto(es, active, n - 1).push(n - 1)
    } else {
        retired_upto(es, active, n - 1)
    }
}

/// Counts the candidates more recent than entry `i`.
fn count_more_recent(es: &Vec<Entry>, active: &str, i: usize) -> (r: usize)
    requires
        i < es.len(),
    ensures
        r == rank(es@, active@, i as int),
{
    let mut r: usize = 0;
    let mut j: usize = 0;
    while j < es.len()
        invariant
            i < es.len(),
            j <= es.len(),
            r == rank_upto(es@, active@, i as int, j as int),
            r <= j,
        decreases es.len() - j,
    {
        let e = &es[j];
        if e.is_dir && !crate::text::same_text(e.path.as_str(), active)
            && (e.modified > es[i].modified || (e.modified == es[i].modified && j > i)) {
            r = r + 1;
        }
        j = j + 1;
    }
    r
}

/// The paths of the deployments to delete, in listing order: every directory
/// other than `active` that has at least two more recent such directories.
pub fn retired(es: &Vec<Entry>, active: &str) -> (r: Vec<String>)
    ensures
        r@.len() == retired_upto(es@, active@, es@.len() as int).len(),
        forall|k: int| 0 <= k < r@.len() ==>
            #[trigger] r@[k]@ == es@[retired_upto(es@, active@, es@.len() as int)[k]].path@,
{
    let mut r: Vec<String> = Vec::new();
    let mut i: usize = 0;
    while i < es.len()
        invariant
            i <= es.len(),
            r@.len() == retired_upto(es@, active@, i as int).len(),
            forall|k: int| 0 <= k < r@.len() ==>
                #[trigger] r@[k]@ == es@[retired_upto(es@, active@, i as int)[k]].path@,
            forall|k: int| 0 <= k < retired_upto(es@, active@, i as int).len() ==>
                0 <= #[trigger] retired_upto(es@, active@, i as int)[k] < i,
        decreases es.len() - i,
    {
        let e = &es[i];
        if e.is_dir && !crate::text::same_text(e.path.as_str(), active) {
            let n = count_more_recent(es, active, i);
            if n >= KEPT {
                r.push(e.path.clone());
            }
        }
        i = i + 1;
    }
    r
}

/// The candidates among the entries.
pub open spec fn candidate_set(es: Seq<Entry>, active: Seq<char>) -> Set<int> {
    Set::new(|i: int| 0 <= i < es.len() && is_candidate(es, active, i))
}

/// The candidates that are kept.
pub open spec fn kept_set(es: Seq<Entry>, active: Seq<char>) -> Set<int> {
    Set::new(|i: int| 0 <= i < es.len() && is_candidate(es, active, i) && !is_retired(es, active, i))
}

proof fn lemma_outranks_total(es: Seq<Entry>, i: int, j: int)
    requires
        i != j,
    ensures
        outranks(es, i, j) || outranks(es, j, i),
        !(outranks(es, i, j) && outranks(es, j, i)),
{
}

/// Counting up to `n`: a candidate more recent than `j` is more recent than `i`
/// too, and `j` itself counts for `i` but not for `j`.
proof fn lemma_rank_step(es: Seq<Entry>, active: Seq<char>, j: int, i: int, n: int)
    requires
        0 <= j < es.len(),
        0 <= i < es.len(),
        is_candidate(es, active, j),
        outranks(es, j, i),
        n <= es.len(),
    ensures
        rank_upto(es, active, i, n) >= rank_upto(es, active, j, n) + if 0 <= j < n { 1nat } else { 0nat },
    decreases n,
{
    if n > 0 {
        lemma_rank_step(es, active, j, i, n - 1);
    }
}

/// No candidate among the first `n` entries is more recent than `m`, so none counts.
proof fn lemma_rank_zero(es: Seq<Entry>, active: Seq<char>, m: int, n: int)
    requires
        n <= es.len(),
        forall|k: int| 0 <= k < n && is_candidate(es, active, k) ==> !outranks(es, k, m),
    ensures
        rank_upto(es, active, m, n) == 0,
    decreases n,
{
    if n > 0 {
        lemma_rank_zero(es, active, m, n - 1);
    }
}

/// Only `t` among the first `n` entries is a candidate more recent than `m`.
proof fn lemma_rank_one(es: Seq<Entry>, active: Seq<char>, t: int, m: int, n: int)
    requires
        n <= es.len(),
        0 <= t < es.len(),
        is_candidate(es, active, t),
        outranks(es, t, m),
        forall|k: int| 0 <= k < n && k != t && is_candidate(es, active, k) ==> !outranks(es, k, m),
    ensures
        rank_upto(es, active, m, n) == if t < n { 1nat } else { 0nat },
    decreases n,
{
    if n > 0 {
        lemma_rank_one(es, active, t, m, n - 1);
    }
}

/// The most recent candidate among the first `n` entries other than `skip`, if any.
proof fn lemma_top(es: Seq<Entry>, active: Seq<char>, skip: int, n: int) -> (m: int)
    requires
        0 <= n <= es.len(),
    ensures
        (exists|k: int| 0 <= k < n && k != skip && is_candidate(es, active, k)) ==> {
            &&& 0 <= m < n
            &&& m != skip
            &&& is_candidate(es, active, m)
            &&& forall|k: int| 0 <= k < n && k != skip && is_candidate(es, active, k) ==> !outranks(es, k, m)
        },
    decreases n,
{
    if n == 0 {
        0
    } else {
        let m0 = lemma_top(es, active, skip, n - 1);
        let c = n - 1;
        if c != skip && is_candidate(es, active, c) {
            if exists|k: int| 0 <= k < n - 1 && k != skip && is_candidate(es, active, k) {
                if outranks(es, c, m0) {
                    assert forall|k: int| 0 <= k < n && k != skip && is_candidate(es, active, k) implies !outranks(es, k, c) by {
                        if k != c {
                            lemma_outranks_total(es, k, c);
                        }
                    }
                    c
                } else {
                    m0
                }
            } else {
                c
            }
        } else {
            m0
        }
    }
}

/// Retention: of the candidates for deletion (the directories other than the
/// active one), exactly two are kept, or all of them when there are fewer, and
/// every kept one is more recent than every deleted one.
pub proof fn lemma_retention(es: Seq<Entry>, active: Seq<char>)
    ensures
        kept_set(es, active).len() == if candidate_set(es, active).len() < KEPT {
            candidate_set(es, active).len()
        } else {
            KEPT as nat
        },
        forall|k: int, i: int|
            #[trigger] kept_set(es, active).contains(k) && 0 <= i < es.len() && #[trigger] is_retired(es, active, i)
                ==> outranks(es, k, i),
{
    let n = es.len() as int;
    let cs = candidate_set(es, active);
    let ks = kept_set(es, active);
    assert(cs.subset_of(vstd::set_lib::set_int_range(0, n)));
    vstd::set_lib::lemma_int_range(0, n);
    vstd::set_lib::lemma_len_subset(cs, vstd::set_lib::set_int_range(0, n));
    assert forall|k: int, i: int|
        #[trigger] ks.contains(k) && 0 <= i < es.len() && #[trigger] is_retired(es, active, i)
            implies outranks(es, k, i) by {
        lemma_outranks_total(es, k, i);
        if outranks(es, i, k) {
            lemma_rank_step(es, active, i, k, n);
        }
    }
    let m = lemma_top(es, active, -1, n);
    if cs.len() == 0 {
        assert(ks =~= Set::empty()) by {
            assert forall|k: int| ks.contains(k) implies false by {
                assert(cs.contains(k));
            }
        }
    } else {
        let w = cs.choose();
        assert(cs.contains(w));
        assert forall|k: int| 0 <= k < n && is_candidate(es, active, k) implies !outranks(es, k, m) by {}
        lemma_rank_zero(es, active, m, n);
        let m2 = lemma_top(es, active, m, n);
        if exists|k: int| 0 <= k < n && k != m && is_candidate(es, active, k) {
            lemma_outranks_total(es, m, m2);
            assert forall|k: int| 0 <= k < n && k != m && is_candidate(es, active, k) implies !outranks(es, k, m2) by {}
            lemma_rank_one(es, active, m, m2, n);
            assert(ks =~= set![m, m2]) by {
                assert forall|k: int| ks.contains(k) implies k == m || k == m2 by {
                    if k != m && k != m2 {
                        lemma_outranks_total(es, m, k);
                        lemma_outranks_total(es, m2, k);
                        lemma_rank_step(es, active, m, k, n);
                        lemma_rank_step(es, active, m2, k, n);
                        lemma_rank_step(es, active, m, m2, n);
                        if outranks(es, k, m2) {
                            lemma_rank_step(es, active, k, m2, n);
                        }
                    }
                }
            }
            assert(set![m, m2].len() == 2) by {
                assert(set![m, m2] =~= set![m].insert(m2));
            }
            assert(cs.contains(m) && cs.contains(m2));
            assert(cs.remove(m).contains(m2));
            assert(cs.remove(m).len() >= 1) by {
                vstd::set_lib::lemma_len_subset(set![m2], cs.remove(m));
            }
        } else {
            assert(ks =~= set![m]) by {
                assert forall|k: int| cs.contains(k) implies k == m by {}
            }
            assert(cs =~= set![m]);
        }
    }
}

/// The directories left after the deletions.
pub open spec fn remaining_dirs(es: Seq<Entry>, active: Seq<char>) -> Set<int> {
    Set::new(|i: int| 0 <= i < es.len() && es[i].is_dir && !is_retired(es, active, i))
}

/// Retention bound: when the listing holds the active deployment's directory
/// once and at least two other directories (three or more runs), exactly three
/// directories remain: the active one and the two most recent others.
pub proof fn lemma_three_remain(es: Seq<Entry>, active: Seq<char>, a: int)
    requires
        0 <= a < es.len(),
        es[a].is_dir,
        es[a].path@ == active,
        forall|i: int| 0 <= i < es.len() && i != a ==> #[trigger] es[i].path@ != active,
        candidate_set(es, active).len() >= KEPT,
    ensures
        remaining_dirs(es, active).len() == KEPT + 1,
        remaining_dirs(es, active) == kept_set(es, active).insert(a),
{
    lemma_retention(es, active);
    let ks = kept_set(es, active);
    assert(remaining_dirs(es, active) =~= ks.insert(a));
    assert(!ks.contains(a));
    assert(ks.subset_of(vstd::set_lib::set_int_range(0, es.len() as int)));
    vstd::set_lib::lemma_int_range(0, es.len() as int);
    vstd::set_lib::lemma_len_subset(ks, vstd::set_lib::set_int_range(0, es.len() as int));
}

} // verus!
