//! What the resolvers ask of the store, what it answers, and an in-memory
//! store that answers the same way.
use vstd::prelude::*;
use crate::model::{RowView, StoreRow};

verus! {

/// The kinds of failure a field can report.
#[derive(Clone, Copy, Debug, PartialEq, Eq, Structural)]
pub enum FieldError {
    /// No connection could be had from the pool.
    StoreUnavailable,
    /// The query failed, or its answer broke an invariant of the data.
    StoreError,
    /// Reserved for identity checks; nothing raises it yet.
    Unauthenticated,
}

/// One of the three selections the resolvers make.
#[derive(Debug)]
pub enum StoreQuery {
    /// Every target.
    All,
    /// The targets of one season.
    BySeason(i32),
    /// The target with one identifier.
    ById(String),
}

/// Mathematical model of a `StoreQuery`.
pub enum QueryView {
    All,
    BySeason(int),
    ById(Seq<char>),
}

impl View for StoreQuery {
    type V = QueryView;

    open spec fn view(&self) -> QueryView {
        match self {
            StoreQuery::All => QueryView::All,
            StoreQuery::BySeason(s) => QueryView::BySeason(*s as int),
            StoreQuery::ById(id) => QueryView::ById(id@),
        }
    }
}

/// Whether a row belongs in the answer to a query.
pub open spec fn row_answers(q: QueryView, r: RowView) -> bool {
    match q {
        QueryView::All => true,
        QueryView::BySeason(s) => r.season == s,
        QueryView::ById(id) => r.id == id,
    }
}

/// The answer a store holding `db` owes to `q`: the matching rows, in the
/// store's order.
pub open spec fn answer(db: Seq<RowView>, q: QueryView) -> Seq<RowView> {
    db.filter(|r: RowView| row_answers(q, r))
}

/// The rows as their models.
pub open spec fn rows_view(rows: Seq<StoreRow>) -> Seq<RowView> {
    rows.map_values(|r: StoreRow| r@)
}

/// How one store access for one field ended.
pub enum StoreOutcome {
    /// The pool handed out no connection.
    NoConnection,
    /// A connection was had, and the query failed.
    QueryFailed,
    /// The query ran and returned these rows.
    Rows(Vec<StoreRow>),
}

/// Mathematical model of a `StoreOutcome`.
pub enum OutcomeView {
    NoConnection,
    QueryFailed,
    Rows(Seq<RowView>),
}

impl View for StoreOutcome {
    type V = OutcomeView;

    open spec fn view(&self) -> OutcomeView {
        match self {
            StoreOutcome::NoConnection => OutcomeView::NoConnection,
            StoreOutcome::QueryFailed => OutcomeView::QueryFailed,
            StoreOutcome::Rows(rows) => OutcomeView::Rows(rows_view(rows@)),
        }
    }
}

impl StoreQuery {
    /// Whether `row` belongs in the answer to this query.
    pub fn answers(&self, row: &StoreRow) -> (r: bool)
        ensures
            r == row_answers(self@, row@),
    {
        match self {
            StoreQuery::All => true,
            StoreQuery::BySeason(s) => row.season == *s as i64,
            StoreQuery::ById(id) => row.id == *id,
        }
    }
}

/// A store kept in memory, for running the resolvers without a database.
pub struct MemoryStore {
    pub rows: Vec<StoreRow>,
}

impl MemoryStore {
    /// The rows held, as their models.
    pub open spec fn db(&self) -> Seq<RowView> {
        rows_view(self.rows@)
    }

    /// A store holding `rows`, in that order.
    pub fn new(rows: Vec<StoreRow>) -> (r: MemoryStore)
        ensures
            r.db() == rows_view(rows@),
    {
        MemoryStore { rows }
    }

    /// Runs `q` against the rows held; the access always succeeds.
    pub fn fetch(&self, q: &StoreQuery) -> (r: StoreOutcome)
        ensures
            r@ == OutcomeView::Rows(answer(self.db(), q@)),
    {
        let mut out: Vec<StoreRow> = Vec::new();
        let mut i: usize = 0;
        while i < self.rows.len()
            invariant
                i <= self.rows@.len(),
                rows_view(out@) == answer(self.db().take(i as int), q@),
            decreases self.rows@.len() - i,
        {
            let row = &self.rows[i];
            proof {
                let pre = self.db().take(i as int);
                let next = self.db().take(i as int + 1);
                assert(next.drop_last() == pre);
                assert(next.last() == row@);
                reveal(Seq::filter);
            }
            if q.answers(row) {
                out.push(StoreRow {
                    id: row.id.clone(),
                    name: row.name.clone(),
                    season: row.season,
                    kind: row.kind.clone(),
                    votes: row.votes,
                });
                assert(rows_view(out@) =~= answer(self.db().take(i as int + 1), q@));
            } else {
                assert(rows_view(out@) =~= answer(self.db().take(i as int + 1), q@));
            }
            i = i + 1;
        }
        assert(self.db().take(self.rows@.len() as int) =~= self.db());
        StoreOutcome::Rows(out)
    }
}

} // verus!
