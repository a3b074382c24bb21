//! Choosing the catalog entries that a preview cites.

use vstd::prelude::*;
use crate::catalog::Catalog;

verus! {

/// The largest number of identifiers in a sample.
pub const SAMPLE_LIMIT: usize = 3;

/// The identifiers that are preferred for a sample, most preferred first:
/// entries known to show off many features of a style.
pub open spec fn priority_ids() -> Seq<Seq<char>> {
    seq!["vaswani_attention"@, "foucault_discipline"@, "brown_v_board"@]
}

/// The test by which a preferred identifier enters the sample: the catalog
/// holds it.
pub open spec fn held_by(ids: Seq<Seq<char>>) -> spec_fn(Seq<char>) -> bool {
    |id: Seq<char>| ids.contains(id)
}

/// The preferred identifiers that a catalog holds, in order of preference.
pub open spec fn priority_hits(ids: Seq<Seq<char>>) -> Seq<Seq<char>> {
    priority_ids().filter(held_by(ids))
}

/// The first identifiers of a catalog, up to the sample limit.
pub open spec fn leading_ids(ids: Seq<Seq<char>>) -> Seq<Seq<char>> {
    if ids.len() <= SAMPLE_LIMIT {
        ids
    } else {
        ids.take(SAMPLE_LIMIT as int)
    }
}

/// The sample for a catalog with the given identifiers: the preferred
/// identifiers that it holds, in order of preference; if it holds none of
/// them, its first identifiers in catalog order, up to the sample limit.
pub open spec fn sample_of(ids: Seq<Seq<char>>) -> Seq<Seq<char>> {
    if priority_hits(ids).len() > 0 {
        priority_hits(ids)
    } else {
        leading_ids(ids)
    }
}

/// The preferred identifier at a rank below the sample limit.
fn priority_id(rank: usize) -> (id: &'static str)
    requires
        rank < SAMPLE_LIMIT,
    ensures
        id@ == priority_ids()[rank as int],
{
    if rank == 0 {
        "vaswani_attention"
    } else if rank == 1 {
        "foucault_discipline"
    } else {
        "brown_v_board"
    }
}

/// Chooses the identifiers that a preview of this catalog cites.
///
/// A preferred identifier in the catalog always wins, so the sample does not
/// depend on the catalog's order as long as one is present. An empty catalog
/// gives an empty sample.
pub fn select_sample<R>(catalog: &Catalog<R>) -> (sample: Vec<String>)
    ensures
        sample.deep_view() == sample_of(catalog.ids()),
        sample@.len() <= SAMPLE_LIMIT,
        forall|i: int| 0 <= i < sample@.len() ==> catalog.ids().contains(#[trigger] sample@[i]@),
{
    let ghost ids = catalog.ids();
    let mut sample: Vec<String> = Vec::new();
    let mut rank: usize = 0;
    assert(priority_ids().take(0) =~= Seq::<Seq<char>>::empty());
    assert(sample.deep_view() =~= priority_ids().take(0).filter(held_by(ids)));
    while rank < SAMPLE_LIMIT
        invariant
            rank <= SAMPLE_LIMIT,
            ids == catalog.ids(),
            sample.deep_view() == priority_ids().take(rank as int).filter(held_by(ids)),
        decreases SAMPLE_LIMIT - rank,
    {
        let id = priority_id(rank);
        let ghost seen = priority_ids().take(rank as int);
        let ghost prior = sample.deep_view();
        proof {
            assert(priority_ids().take(rank as int + 1) =~= seen.push(id@));
            seen.lemma_filter_push(id@, held_by(ids));
        }
        if catalog.contains(id) {
            sample.push(id.to_owned());
            assert(sample.deep_view() =~= prior.push(id@));
        }
        rank += 1;
    }
    assert(priority_ids().take(SAMPLE_LIMIT as int) =~= priority_ids());
    if sample.len() == 0 {
        let mut position: usize = 0;
        while position < SAMPLE_LIMIT && position < catalog.len()
            invariant
                position <= SAMPLE_LIMIT,
                position <= catalog.ids().len(),
                ids == catalog.ids(),
                sample.deep_view() == ids.take(position as int),
            decreases SAMPLE_LIMIT - position,
        {
            let ghost prior = sample.deep_view();
            match catalog.entry_at(position) {
                Some(entry) => {
                    sample.push(entry.id.clone());
                    assert(sample.deep_view() =~= prior.push(ids[position as int]));
                    assert(ids.take(position as int + 1) =~= ids.take(position as int).push(
                        ids[position as int],
                    ));
                },
                None => {},
            }
            position += 1;
        }
        assert(ids.len() <= SAMPLE_LIMIT ==> ids.take(position as int) =~= ids);
    }
    proof {
        lemma_sample_within_catalog(ids);
        assert forall|i: int| 0 <= i < sample@.len() implies ids.contains(#[trigger] sample@[i]@) by {
            assert(sample.deep_view()[i] == sample@[i]@);
        }
    }
    sample
}

/// A sample is never longer than the sample limit, and every identifier in it
/// is one of the catalog's, whatever the catalog holds.
pub proof fn lemma_sample_within_catalog(ids: Seq<Seq<char>>)
    ensures
        sample_of(ids).len() <= SAMPLE_LIMIT,
        forall|i: int| 0 <= i < sample_of(ids).len() ==> ids.contains(#[trigger] sample_of(ids)[i]),
{
    let hits = priority_hits(ids);
    priority_ids().lemma_filter_len(held_by(ids));
    assert forall|i: int| 0 <= i < hits.len() implies ids.contains(#[trigger] hits[i]) by {
        priority_ids().lemma_filter_pred(held_by(ids), i);
    }
}

/// A catalog that holds every preferred identifier is sampled by exactly
/// those, in order of preference, wherever they stand in the catalog.
pub proof fn lemma_priority_sample(ids: Seq<Seq<char>>)
    requires
        forall|k: int| 0 <= k < priority_ids().len() ==> ids.contains(#[trigger] priority_ids()[k]),
    ensures
        sample_of(ids) == priority_ids(),
{
    let all = priority_ids();
    let held = held_by(ids);
    assert(all.take(0).filter(held) =~= all.take(0)) by {
        reveal(Seq::filter);
    }
    assert(all.take(1) =~= all.take(0).push(all[0]));
    all.take(0).lemma_filter_push(all[0], held);
    assert(all.take(2) =~= all.take(1).push(all[1]));
    all.take(1).lemma_filter_push(all[1], held);
    assert(all.take(3) =~= all.take(2).push(all[2]));
    all.take(2).lemma_filter_push(all[2], held);
    assert(all.take(3) =~= all);
}

/// An empty catalog is sampled by nothing.
pub proof fn lemma_empty_catalog_sample()
    ensures
        sample_of(Seq::<Seq<char>>::empty()) == Seq::<Seq<char>>::empty(),
{
    let none = Seq::<Seq<char>>::empty();
    priority_ids().lemma_filter_len(held_by(none));
    if priority_hits(none).len() > 0 {
        priority_ids().lemma_filter_pred(held_by(none), 0);
    }
    assert(sample_of(none) =~= none);
}

/// Two catalogs that hold the same preferred identifiers, at least one, are
/// sampled alike: with a preferred identifier present, the order and the rest
/// of the catalog do not matter.
pub proof fn lemma_sample_ignores_order(first: Seq<Seq<char>>, second: Seq<Seq<char>>)
    requires
        forall|k: int| 0 <= k < priority_ids().len() ==> (first.contains(#[trigger] priority_ids()[k])
            <==> second.contains(priority_ids()[k])),
        priority_hits(first).len() > 0,
    ensures
        sample_of(first) == sample_of(second),
{
    let all = priority_ids();
    let a = held_by(first);
    let b = held_by(second);
    assert(all.take(0).filter(a) =~= all.take(0).filter(b)) by {
        reveal(Seq::filter);
    }
    assert(all.take(1) =~= all.take(0).push(all[0]));
    all.take(0).lemma_filter_push(all[0], a);
    all.take(0).lemma_filter_push(all[0], b);
    assert(all.take(2) =~= all.take(1).push(all[1]));
    all.take(1).lemma_filter_push(all[1], a);
    all.take(1).lemma_filter_push(all[1], b);
    assert(all.take(3) =~= all.take(2).push(all[2]));
    all.take(2).lemma_filter_push(all[2], a);
    all.take(2).lemma_filter_push(all[2], b);
    assert(all.take(3) =~= all);
}

} // verus!
