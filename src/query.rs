//! The root query fields and how each is resolved.
use vstd::prelude::*;
use crate::model::{decode, RowView, StoreRow, Target, TargetView, User};
use crate::store::{FieldError, OutcomeView, QueryView, StoreOutcome, StoreQuery, row_answers, rows_view};

verus! {

/// The version string the schema reports.
pub open spec fn api_version() -> Seq<char> {
    "1.0"@
}

/// The name of the placeholder user.
pub open spec fn current_user_name() -> Seq<char> {
    "Test"@
}

/// The selection that the `targets` field makes.
pub open spec fn targets_query(season: Option<i32>) -> QueryView {
    match season {
        Some(s) => QueryView::BySeason(s as int),
        None => QueryView::All,
    }
}

/// A row is taken when it answers the query and decodes.
pub open spec fn row_accepted(q: QueryView, r: RowView) -> bool {
    row_answers(q, r) && decode(r) is Some
}

/// Every row is taken.
pub open spec fn rows_accepted(q: QueryView, rows: Seq<RowView>) -> bool {
    forall|i: int| 0 <= i < rows.len() ==> #[trigger] row_accepted(q, rows[i])
}

/// The targets that accepted rows stand for.
pub open spec fn decode_all(rows: Seq<RowView>) -> Seq<TargetView> {
    rows.map_values(|r: RowView| decode(r)->Some_0)
}

/// The targets as their models.
pub open spec fn targets_view(ts: Seq<Target>) -> Seq<TargetView> {
    ts.map_values(|t: Target| t@)
}

/// What the `targets` field resolves to, given how the store access ended.
pub open spec fn resolve_targets(season: Option<i32>, outcome: OutcomeView) -> Result<
    Seq<TargetView>,
    FieldError,
> {
    match outcome {
        OutcomeView::NoConnection => Err(FieldError::StoreUnavailable),
        OutcomeView::QueryFailed => Err(FieldError::StoreError),
        OutcomeView::Rows(rows) => if rows_accepted(targets_query(season), rows) {
            Ok(decode_all(rows))
        } else {
            Err(FieldError::StoreError)
        },
    }
}

/// What the `target` field resolves to, given how the store access ended:
/// no row is an absent target, more than one row is an error.
pub open spec fn resolve_target(id: Seq<char>, outcome: OutcomeView) -> Result<
    Option<TargetView>,
    FieldError,
> {
    match outcome {
        OutcomeView::NoConnection => Err(FieldError::StoreUnavailable),
        OutcomeView::QueryFailed => Err(FieldError::StoreError),
        OutcomeView::Rows(rows) => if rows.len() == 0 {
            Ok(None)
        } else if rows.len() == 1 && row_accepted(QueryView::ById(id), rows[0]) {
            Ok(decode(rows[0]))
        } else {
            Err(FieldError::StoreError)
        },
    }
}

/// The root query object.
pub struct Query;

#[allow(non_snake_case)]
impl Query {
    /// The version of the query interface.
    pub fn apiVersion() -> (r: &'static str)
        ensures
            r@ == api_version(),
    {
        "1.0"
    }

    /// The signed-in user; for now always the same placeholder.
    pub fn currentUser() -> (r: Result<User, FieldError>)
        ensures
            r matches Ok(u) && u.name@ == current_user_name(),
    {
        Ok(User { name: String::from_str("Test") })
    }

    /// The store selection that `targets` needs.
    pub fn targets_query(season: Option<i32>) -> (q: StoreQuery)
        ensures
            q@ == targets_query(season),
    {
        match season {
            Some(s) => StoreQuery::BySeason(s),
            None => StoreQuery::All,
        }
    }

    /// The store selection that `target` needs.
    pub fn target_query(id: &str) -> (q: StoreQuery)
        ensures
            q@ == QueryView::ById(id@),
    {
        StoreQuery::ById(id.to_owned())
    }

    /// Resolves `targets` from the outcome of running `targets_query(season)`.
    pub fn targets(season: Option<i32>, outcome: StoreOutcome) -> (r: Result<Vec<Target>, FieldError>)
        ensures
            match r {
                Ok(ts) => resolve_targets(season, outcome@) == Ok::<_, FieldError>(targets_view(ts@)),
                Err(e) => resolve_targets(season, outcome@) == Err::<Seq<TargetView>, _>(e),
            },
    {
        match outcome {
            StoreOutcome::NoConnection => Err(FieldError::StoreUnavailable),
            StoreOutcome::QueryFailed => Err(FieldError::StoreError),
            StoreOutcome::Rows(rows) => {
                let q = Query::targets_query(season);
                let ghost rv = rows_view(rows@);
                assert(outcome@ == OutcomeView::Rows(rv));
                let mut out: Vec<Target> = Vec::new();
                let mut i: usize = 0;
                while i < rows.len()
                    invariant
                        rv == rows_view(rows@),
                        outcome@ == OutcomeView::Rows(rv),
                        q@ == targets_query(season),
                        i <= rows@.len(),
                        rows_accepted(q@, rv.take(i as int)),
                        targets_view(out@) == decode_all(rv.take(i as int)),
                    decreases rows@.len() - i,
                {
                    let row = &rows[i];
                    assert(rv[i as int] == row@);
                    if !q.answers(row) {
                        assert(!row_accepted(q@, rv[i as int]));
                        return Err(FieldError::StoreError);
                    }
                    match row.decode() {
                        Some(t) => {
                            let ghost before = out@;
                            out.push(t);
                            assert(out@ == before.push(t));
                            assert(decode(rv[i as int]) == Some(t@));
                            assert(targets_view(out@) =~= targets_view(before).push(t@));
                            assert(rv.take(i as int + 1) =~= rv.take(i as int).push(rv[i as int]));
                            assert(decode_all(rv.take(i as int + 1)) =~= decode_all(rv.take(i as int)).push(t@));
                            assert(targets_view(out@) =~= decode_all(rv.take(i as int + 1)));
                        },
                        None => {
                            assert(!row_accepted(q@, rv[i as int]));
                            return Err(FieldError::StoreError);
                        },
                    }
                    i = i + 1;
                }
                assert(rv.take(rows@.len() as int) =~= rv);
                Ok(out)
            },
        }
    }

    /// Resolves `target` from the outcome of running `target_query(id)`.
    pub fn target(id: &str, outcome: StoreOutcome) -> (r: Result<Option<Target>, FieldError>)
        ensures
            match r {
                Ok(Some(t)) => resolve_target(id@, outcome@) == Ok::<_, FieldError>(Some(t@)),
                Ok(None) => resolve_target(id@, outcome@) == Ok::<Option<TargetView>, FieldError>(None),
                Err(e) => resolve_target(id@, outcome@) == Err::<Option<TargetView>, _>(e),
            },
    {
        match outcome {
            StoreOutcome::NoConnection => Err(FieldError::StoreUnavailable),
            StoreOutcome::QueryFailed => Err(FieldError::StoreError),
            StoreOutcome::Rows(rows) => {
                if rows.len() == 0 {
                    Ok(None)
                } else if rows.len() > 1 {
                    Err(FieldError::StoreError)
                } else {
                    let q = Query::target_query(id);
                    let row = &rows[0];
                    if !q.answers(row) {
                        return Err(FieldError::StoreError);
                    }
                    match row.decode() {
                        Some(t) => Ok(Some(t)),
                        None => Err(FieldError::StoreError),
                    }
                }
            },
        }
    }
}

} // verus!
