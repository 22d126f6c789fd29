//! How the list field and the lookup field agree on one store.
use vstd::prelude::*;
use crate::model::{RowView, TargetView};
use crate::store::FieldError;
use crate::query::{decode_all, resolve_target, resolve_targets, row_accepted, rows_accepted};
use crate::store::{answer, row_answers, OutcomeView, QueryView};

verus! {

/// No two rows of the store share an identifier.
pub open spec fn ids_unique(db: Seq<RowView>) -> bool {
    forall|j: int, k: int|
        0 <= j < db.len() && 0 <= k < db.len() && #[trigger] db[j].id == #[trigger] db[k].id
            ==> j == k
}

/// The `targets` field on a store holding `db`.
pub open spec fn list_on(db: Seq<RowView>, season: Option<i32>) -> Result<Seq<TargetView>, FieldError> {
    resolve_targets(season, OutcomeView::Rows(answer(db, crate::query::targets_query(season))))
}

/// The `target` field on a store holding `db`.
pub open spec fn lookup_on(db: Seq<RowView>, id: Seq<char>) -> Result<Option<TargetView>, FieldError> {
    resolve_target(id, OutcomeView::Rows(answer(db, QueryView::ById(id))))
}

/// A successful `targets` with a season lists targets of that season only,
/// whatever rows the store returned.
pub proof fn lemma_season_only(s: i32, rows: Seq<RowView>)
    requires
        resolve_targets(Some(s), OutcomeView::Rows(rows)) is Ok,
    ensures
        forall|k: int|
            0 <= k < resolve_targets(Some(s), OutcomeView::Rows(rows))->Ok_0.len()
                ==> (#[trigger] resolve_targets(Some(s), OutcomeView::Rows(rows))->Ok_0[k]).season
                == s as int,
{
    let ts = resolve_targets(Some(s), OutcomeView::Rows(rows))->Ok_0;
    assert forall|k: int| 0 <= k < ts.len() implies #[trigger] ts[k].season == s as int by {
        assert(row_accepted(QueryView::BySeason(s as int), rows[k]));
    }
}

/// Where listing every target succeeds, listing one season succeeds too, and
/// each target it lists is among those of the full list.
pub proof fn lemma_season_within_all(db: Seq<RowView>, s: i32)
    requires
        list_on(db, None) is Ok,
    ensures
        list_on(db, Some(s)) is Ok,
        forall|k: int|
            0 <= k < list_on(db, Some(s))->Ok_0.len() ==> list_on(db, None)->Ok_0.contains(
                #[trigger] list_on(db, Some(s))->Ok_0[k],
            ),
{
    let qa = QueryView::All;
    let qs = QueryView::BySeason(s as int);
    let pa = |r: RowView| row_answers(qa, r);
    let ps = |r: RowView| row_answers(qs, r);
    let a = answer(db, qa);
    let b = answer(db, qs);
    db.filter_lemma(pa);
    db.filter_lemma(ps);
    assert(rows_accepted(qa, a));
    // each row of the season's answer stands in the full answer
    assert forall|m: int| 0 <= m < b.len() implies a.contains(#[trigger] b[m]) by {
        assert(b.contains(b[m]));
        db.lemma_filter_contains_rev(ps, b[m]);
        let j = choose|j: int| 0 <= j < db.len() && db[j] == b[m];
        assert(pa(db[j]));
        assert(a.contains(db[j]));
    }
    assert forall|m: int| 0 <= m < b.len() implies #[trigger] row_accepted(qs, b[m]) by {
        assert(a.contains(b[m]));
        let n = choose|n: int| 0 <= n < a.len() && #[trigger] a[n] == b[m];
        assert(row_accepted(qa, a[n]));
        assert(ps(b[m]));
    }
    let all = decode_all(a);
    let some = decode_all(b);
    assert forall|m: int| 0 <= m < some.len() implies all.contains(#[trigger] some[m]) by {
        assert(a.contains(b[m]));
        let n = choose|n: int| 0 <= n < a.len() && #[trigger] a[n] == b[m];
        assert(all[n] == some[m]);
    }
}

/// On a store without the identifier, filtering by it leaves nothing.
proof fn lemma_absent_id(db: Seq<RowView>, id: Seq<char>)
    requires
        forall|j: int| 0 <= j < db.len() ==> (#[trigger] db[j]).id != id,
    ensures
        answer(db, QueryView::ById(id)).len() == 0,
{
    let p = |r: RowView| row_answers(QueryView::ById(id), r);
    assert(db.all(|x: RowView| !p(x)));
    db.lemma_all_neg_filter_empty(p);
}

/// With unique identifiers, filtering by the identifier of row `j` leaves
/// that row alone.
proof fn lemma_single_id(db: Seq<RowView>, j: int)
    requires
        ids_unique(db),
        0 <= j < db.len(),
    ensures
        answer(db, QueryView::ById(db[j].id)) == seq![db[j]],
    decreases db.len(),
{
    let id = db[j].id;
    let p = |r: RowView| row_answers(QueryView::ById(id), r);
    let rest = db.drop_last();
    reveal(Seq::filter);
    if j == db.len() - 1 {
        assert forall|i: int| 0 <= i < rest.len() implies (#[trigger] rest[i]).id != id by {
            assert(db[i] == rest[i]);
        }
        lemma_absent_id(rest, id);
        assert(db.filter(p) =~= seq![db[j]]);
    } else {
        assert forall|x: int, y: int|
            0 <= x < rest.len() && 0 <= y < rest.len() && #[trigger] rest[x].id
                == #[trigger] rest[y].id implies x == y by {
            assert(db[x] == rest[x] && db[y] == rest[y]);
        }
        assert(rest[j] == db[j]);
        lemma_single_id(rest, j);
        assert(db[db.len() - 1].id != id);
        assert(db.filter(p) =~= seq![db[j]]);
    }
}

/// Looking up an identifier that the store does not hold gives an absent
/// target, not an error.
pub proof fn lemma_lookup_absent(db: Seq<RowView>, id: Seq<char>)
    requires
        forall|j: int| 0 <= j < db.len() ==> (#[trigger] db[j]).id != id,
    ensures
        lookup_on(db, id) == Ok::<Option<TargetView>, FieldError>(None),
{
    lemma_absent_id(db, id);
}

/// On a store with unique identifiers, looking up the identifier of any
/// target that the full list holds gives that same target.
pub proof fn lemma_lookup_matches_list(db: Seq<RowView>, k: int)
    requires
        ids_unique(db),
        list_on(db, None) is Ok,
        0 <= k < list_on(db, None)->Ok_0.len(),
    ensures
        lookup_on(db, list_on(db, None)->Ok_0[k].id) == Ok::<Option<TargetView>, FieldError>(
            Some(list_on(db, None)->Ok_0[k]),
        ),
{
    let qa = QueryView::All;
    let pa = |r: RowView| row_answers(qa, r);
    let a = answer(db, qa);
    assert(row_accepted(qa, a[k]));
    assert(a.contains(a[k]));
    db.lemma_filter_contains_rev(pa, a[k]);
    let j = choose|j: int| 0 <= j < db.len() && db[j] == a[k];
    lemma_single_id(db, j);
}

} // verus!
