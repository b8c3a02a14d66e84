//! Collapsing overlapping prefixes into a minimal covering set.

use vstd::prelude::*;

use crate::query::path::{covers, lemma_covers_transitive, StoragePath};

verus! {

/// The normal forms of `paths`, in order.
pub open spec fn views(paths: Seq<StoragePath>) -> Seq<Seq<char>> {
    paths.map_values(|p: StoragePath| p@)
}

/// The normal forms of borrowed paths, in order.
pub open spec fn ref_views(paths: Seq<&StoragePath>) -> Seq<Seq<char>> {
    paths.map_values(|p: &StoragePath| p@)
}

/// The normal forms of a list that grew by one path.
pub proof fn lemma_views_push(paths: Seq<StoragePath>, last: StoragePath)
    ensures
        views(paths.push(last)) == views(paths).push(last@),
{
}

/// The normal forms of a list of borrowed paths that grew by one path.
pub proof fn lemma_ref_views_push(paths: Seq<&StoragePath>, last: &StoragePath)
    ensures
        ref_views(paths.push(last)) == ref_views(paths).push(last@),
{
}

/// The paths of `all` that no other path of `all` covers.
pub open spec fn minimal(all: Set<Seq<char>>) -> Set<Seq<char>> {
    Set::new(
        |p: Seq<char>|
            all.contains(p) && forall|q: Seq<char>| all.contains(q) && covers(q, p) ==> q == p,
    )
}

/// No path of `kept` covers another, and none occurs twice.
pub open spec fn antichain(kept: Seq<Seq<char>>) -> bool {
    forall|i: int, j: int|
        0 <= i < kept.len() && 0 <= j < kept.len() && covers(#[trigger] kept[i], #[trigger] kept[j])
            ==> i == j
}

/// Every path of `all` is covered by a path of `kept`.
pub open spec fn covering(kept: Seq<Seq<char>>, all: Seq<Seq<char>>) -> bool {
    forall|j: int|
        0 <= j < all.len() ==> exists|i: int|
            0 <= i < kept.len() && covers(#[trigger] kept[i], #[trigger] all[j])
}

/// Every path of `kept` is a path of `all`.
pub open spec fn drawn_from(kept: Seq<Seq<char>>, all: Seq<Seq<char>>) -> bool {
    forall|i: int| 0 <= i < kept.len() ==> all.contains(#[trigger] kept[i])
}

/// An antichain drawn from `all` that covers `all` is the set of minimal
/// paths of `all`.
pub proof fn lemma_cover_is_minimal(kept: Seq<Seq<char>>, all: Seq<Seq<char>>)
    requires
        antichain(kept),
        drawn_from(kept, all),
        covering(kept, all),
    ensures
        kept.to_set() == minimal(all.to_set()),
        kept.no_duplicates(),
{
}

/// Takes `candidate` into the antichain `kept`: a candidate that a kept path
/// covers is dropped; otherwise it enters and the kept paths that it covers
/// leave.
fn absorb(kept: Vec<StoragePath>, candidate: &StoragePath) -> (next: Vec<StoragePath>)
    requires
        antichain(views(kept@)),
    ensures
        antichain(views(next@)),
        drawn_from(views(next@), views(kept@).push(candidate@)),
        covering(views(next@), views(kept@).push(candidate@)),
{
    let ghost old_views = views(kept@);
    let ghost all = old_views.push(candidate@);
    let mut next: Vec<StoragePath> = Vec::new();
    let ghost mut origin: Seq<int> = Seq::empty();
    let mut j: usize = 0;
    while j < kept.len()
        invariant
            j <= kept.len(),
            old_views == views(kept@),
            all == old_views.push(candidate@),
            antichain(old_views),
            origin.len() == next.len(),
            forall|t: int| 0 <= t < j ==> !covers(#[trigger] old_views[t], candidate@),
            forall|k: int|
                0 <= k < origin.len() ==> 0 <= #[trigger] origin[k] < j
                    && views(next@)[k] == old_views[origin[k]],
            forall|a: int, b: int|
                0 <= a < b < origin.len() ==> #[trigger] origin[a] < #[trigger] origin[b],
            forall|k: int| 0 <= k < next.len() ==> !covers(candidate@, #[trigger] views(next@)[k]),
            forall|t: int|
                0 <= t < j && !covers(candidate@, #[trigger] old_views[t]) ==> exists|k: int|
                    0 <= k < origin.len() && origin[k] == t,
        decreases kept.len() - j,
    {
        let item = &kept[j];
        let ghost prior = origin;
        assert(old_views[j as int] == item@);
        if candidate.prefix_matches(item) {
            proof {
                assert forall|i: int| 0 <= i < old_views.len() implies all.contains(
                    #[trigger] old_views[i],
                ) by {
                    assert(all[i] == old_views[i]);
                }
            }
            return kept;
        }
        if !item.prefix_matches(candidate) {
            let ghost before = views(next@);
            next.push(item.clone());
            proof {
                origin = origin.push(j as int);
                assert forall|k: int| 0 <= k < next.len() implies !covers(
                    candidate@,
                    #[trigger] views(next@)[k],
                ) by {
                    if k < before.len() {
                        assert(views(next@)[k] == before[k]);
                    }
                }
            }
        }
        proof {
            assert forall|t: int|
                0 <= t < j + 1 && !covers(candidate@, #[trigger] old_views[t]) implies exists|
                k: int,
            | 0 <= k < origin.len() && origin[k] == t by {
                if t < j {
                    let k = choose|k: int| 0 <= k < prior.len() && prior[k] == t;
                    assert(origin[k] == t);
                } else {
                    assert(origin[origin.len() - 1] == t);
                }
            }
        }
        j = j + 1;
    }
    let ghost before = views(next@);
    next.push(candidate.clone());
    proof {
        let after = views(next@);
        let last = after.len() - 1;
        assert(after[last] == candidate@);
        assert forall|k: int| 0 <= k < last implies after[k] == before[k] by {}
        assert forall|a: int, b: int|
            0 <= a < after.len() && 0 <= b < after.len() && covers(
                #[trigger] after[a],
                #[trigger] after[b],
            ) implies a == b by {
            if a < last && b < last {
                assert(after[a] == old_views[origin[a]]);
                assert(after[b] == old_views[origin[b]]);
            }
        }
        assert forall|i: int| 0 <= i < after.len() implies all.contains(#[trigger] after[i]) by {
            if i < last {
                assert(all[origin[i]] == after[i]);
            } else {
                assert(all[all.len() - 1] == after[i]);
            }
        }
    }
    next
}

/// Collapses `paths` into the minimal set of prefixes that covers them: a
/// path stays exactly if no other path of the input covers it, and it stays
/// once. The order of the result carries no meaning.
pub fn dedup_paths(paths: &Vec<StoragePath>) -> (kept: Vec<StoragePath>)
    ensures
        views(kept@).to_set() == minimal(views(paths@).to_set()),
        views(kept@).no_duplicates(),
        antichain(views(kept@)),
{
    let mut kept: Vec<StoragePath> = Vec::new();
    let mut i: usize = 0;
    while i < paths.len()
        invariant
            i <= paths.len(),
            antichain(views(kept@)),
            drawn_from(views(kept@), views(paths@).take(i as int)),
            covering(views(kept@), views(paths@).take(i as int)),
        decreases paths.len() - i,
    {
        let ghost seen = views(paths@).take(i as int);
        let ghost before = views(kept@);
        kept = absorb(kept, &paths[i]);
        proof {
            let grown = views(paths@).take(i + 1);
            let all = before.push(paths[i as int]@);
            let now = views(kept@);
            assert(grown[i as int] == paths[i as int]@);
            assert forall|s: int| 0 <= s < grown.len() implies exists|k: int|
                0 <= k < now.len() && covers(#[trigger] now[k], #[trigger] grown[s]) by {
                if s < i {
                    let b = choose|b: int| 0 <= b < before.len() && covers(before[b], seen[s]);
                    let k = choose|k: int| 0 <= k < now.len() && covers(now[k], all[b]);
                    lemma_covers_transitive(now[k], before[b], grown[s]);
                } else {
                    let last = all.len() - 1;
                    let k = choose|k: int| 0 <= k < now.len() && covers(now[k], all[last]);
                    assert(covers(now[k], grown[s]));
                }
            }
        }
        i = i + 1;
    }
    proof {
        assert(views(paths@).take(i as int) =~= views(paths@));
        lemma_cover_is_minimal(views(kept@), views(paths@));
    }
    kept
}

/// Of a path and a strict descendant of it only the path stays, whichever of
/// the two is given first.
pub proof fn lemma_descendant_is_dropped(p: Seq<char>, q: Seq<char>)
    requires
        covers(p, q),
        p != q,
    ensures
        minimal(seq![p, q].to_set()) == set![p],
        minimal(seq![q, p].to_set()) == set![p],
{
    let kept = seq![p];
    assert(kept[0] == p);
    assert(covering(kept, seq![p, q]));
}

/// Paths of which none covers another all stay: the result has as many
/// elements as the input.
pub proof fn lemma_siblings_are_kept(all: Seq<Seq<char>>)
    requires
        antichain(all),
    ensures
        minimal(all.to_set()) == all.to_set(),
        minimal(all.to_set()).len() == all.len(),
{
    all.unique_seq_to_set();
}

/// The root absorbs every other path.
pub proof fn lemma_root_absorbs(all: Set<Seq<char>>)
    requires
        all.contains(Seq::<char>::empty()),
    ensures
        minimal(all) == set![Seq::<char>::empty()],
{
}

} // verus!
