//! The values exchanged between the store, the resolvers and the transport.
use vstd::prelude::*;

verus! {

/// Category of a target: a closed set of three tags.
#[derive(Clone, Copy, Debug, PartialEq, Eq, Structural)]
pub enum TargetKind {
    Blessing,
    Decree,
    Will,
}

/// Textual tag under which the store keeps a kind.
pub open spec fn store_tag(k: TargetKind) -> Seq<char> {
    match k {
        TargetKind::Blessing => "Blessing"@,
        TargetKind::Decree => "Decree"@,
        TargetKind::Will => "Will"@,
    }
}

/// The kind a store tag stands for; `None` for a tag outside the set.
pub open spec fn kind_of_store_tag(tag: Seq<char>) -> Option<TargetKind> {
    if tag == "Blessing"@ {
        Some(TargetKind::Blessing)
    } else if tag == "Decree"@ {
        Some(TargetKind::Decree)
    } else if tag == "Will"@ {
        Some(TargetKind::Will)
    } else {
        None
    }
}

impl TargetKind {
    /// The tag the store keeps for this kind.
    pub fn store_tag(&self) -> (r: &'static str)
        ensures
            r@ == store_tag(*self),
    {
        match self {
            TargetKind::Blessing => "Blessing",
            TargetKind::Decree => "Decree",
            TargetKind::Will => "Will",
        }
    }

    /// Reads a store tag back; an unknown tag gives `None`.
    pub fn from_store_tag(tag: &str) -> (r: Option<TargetKind>)
        ensures
            r == kind_of_store_tag(tag@),
    {
        let t = tag.to_owned();
        if t == String::from_str("Blessing") {
            Some(TargetKind::Blessing)
        } else if t == String::from_str("Decree") {
            Some(TargetKind::Decree)
        } else if t == String::from_str("Will") {
            Some(TargetKind::Will)
        } else {
            None
        }
    }
}

/// Every kind reads back from its own store tag.
proof fn lemma_store_tag_round_trip(k: TargetKind)
    ensures
        kind_of_store_tag(store_tag(k)) == Some(k),
{
    reveal_strlit("Blessing");
    reveal_strlit("Decree");
    reveal_strlit("Will");
    assert("Blessing"@.len() == 8);
    assert("Decree"@.len() == 6);
    assert("Will"@.len() == 4);
}

/// A signed-in user as the query schema shows it.
pub struct User {
    pub name: String,
}

/// One votable item, as handed to the transport.
pub struct Target {
    pub id: String,
    pub name: String,
    pub season: i32,
    pub kind: TargetKind,
    pub votes: i32,
}

/// A row as the store answers it: integers as the store keeps them and the
/// kind as its textual tag.
pub struct StoreRow {
    pub id: String,
    pub name: String,
    pub season: i64,
    pub kind: String,
    pub votes: i64,
}

/// Mathematical model of a `Target`.
pub struct TargetView {
    pub id: Seq<char>,
    pub name: Seq<char>,
    pub season: int,
    pub kind: TargetKind,
    pub votes: int,
}

/// Mathematical model of a `StoreRow`.
pub struct RowView {
    pub id: Seq<char>,
    pub name: Seq<char>,
    pub season: int,
    pub kind: Seq<char>,
    pub votes: int,
}

impl View for Target {
    type V = TargetView;

    open spec fn view(&self) -> TargetView {
        TargetView {
            id: self.id@,
            name: self.name@,
            season: self.season as int,
            kind: self.kind,
            votes: self.votes as int,
        }
    }
}

impl View for StoreRow {
    type V = RowView;

    open spec fn view(&self) -> RowView {
        RowView {
            id: self.id@,
            name: self.name@,
            season: self.season as int,
            kind: self.kind@,
            votes: self.votes as int,
        }
    }
}

/// Whether `x` fits the integer type that the schema publishes.
pub open spec fn fits_i32(x: int) -> bool {
    i32::MIN <= x <= i32::MAX
}

/// The target a row stands for: `None` when its kind tag is unknown or a
/// number does not fit the published integer type.
pub open spec fn decode(r: RowView) -> Option<TargetView> {
    match kind_of_store_tag(r.kind) {
        Some(k) => if fits_i32(r.season) && fits_i32(r.votes) {
            Some(TargetView { id: r.id, name: r.name, season: r.season, kind: k, votes: r.votes })
        } else {
            None
        },
        None => None,
    }
}

impl StoreRow {
    /// Turns the row into a target, or `None` where `decode` rejects it.
    pub fn decode(&self) -> (r: Option<Target>)
        ensures
            match r {
                Some(t) => decode(self@) == Some(t@),
                None => decode(self@) is None,
            },
    {
        match TargetKind::from_store_tag(self.kind.as_str()) {
            Some(kind) => {
                if i32::MIN as i64 <= self.season && self.season <= i32::MAX as i64
                    && i32::MIN as i64 <= self.votes && self.votes <= i32::MAX as i64 {
                    Some(Target {
                        id: self.id.clone(),
                        name: self.name.clone(),
                        season: self.season as i32,
                        kind,
                        votes: self.votes as i32,
                    })
                } else {
                    None
                }
            },
            None => None,
        }
    }
}

/// A kind written to the store under its tag reads back as the same kind.
pub proof fn lemma_kind_round_trip(r: RowView, k: TargetKind)
    requires
        r.kind == store_tag(k),
        fits_i32(r.season),
        fits_i32(r.votes),
    ensures
        kind_of_store_tag(store_tag(k)) == Some(k),
        decode(r) matches Some(t) && t.kind == k && t.id == r.id && t.name == r.name
            && t.season == r.season && t.votes == r.votes,
{
    lemma_store_tag_round_trip(k);
}

} // verus!
