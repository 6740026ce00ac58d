//! The observable effect of a bootstrap run on one named database.
//!
//! The workflow replaces the database rather than merging into it: whatever
//! stood under the name before, the post-state is the same — it exists, it
//! holds the loaded schema, and its countable contents number exactly the
//! dataset's insertions. Replacement makes the workflow idempotent in
//! effect, which the laws below state and prove.

use vstd::prelude::*;

verus! {

/// What the workflow leaves observable of one database.
#[derive(Clone, Debug)]
pub struct DbSnapshot {
    /// Whether a database stands under the name.
    pub exists: bool,
    /// The schema definition text the database holds.
    pub schema: String,
    /// How many countable entities the database holds.
    pub entity_count: u64,
}

/// The mathematical image of a `DbSnapshot`.
pub struct DbSnapshotView {
    /// Whether a database stands under the name.
    pub exists: bool,
    /// The schema definition text the database holds.
    pub schema: Seq<char>,
    /// How many countable entities the database holds.
    pub entity_count: u64,
}

impl View for DbSnapshot {
    type V = DbSnapshotView;

    open spec fn view(&self) -> DbSnapshotView {
        DbSnapshotView { exists: self.exists, schema: self.schema@, entity_count: self.entity_count }
    }
}

/// The post-state of a bootstrap run: a database that exists, holds the
/// loaded schema, and counts exactly the dataset's insertions — whatever
/// `prior` stood under the name before.
pub open spec fn bootstrap_effect(
    prior: DbSnapshotView,
    schema: Seq<char>,
    inserted: u64,
) -> DbSnapshotView {
    DbSnapshotView { exists: true, schema, entity_count: inserted }
}

/// Applies the bootstrap's effect to a database snapshot.
pub fn apply_bootstrap(prior: &DbSnapshot, schema: &str, inserted: u64) -> (db: DbSnapshot)
    ensures
        db@ == bootstrap_effect(prior@, schema@, inserted),
{
    DbSnapshot { exists: true, schema: schema.to_owned(), entity_count: inserted }
}

/// Replacement, not merge: the post-state of a bootstrap run does not
/// depend on what stood under the database name before.
pub proof fn lemma_bootstrap_replaces(
    a: DbSnapshotView,
    b: DbSnapshotView,
    schema: Seq<char>,
    inserted: u64,
)
    ensures
        bootstrap_effect(a, schema, inserted) == bootstrap_effect(b, schema, inserted),
{
}

/// Idempotency in effect: running the bootstrap a second time with the same
/// schema and dataset leaves the post-state of the first run unchanged.
pub proof fn lemma_bootstrap_idempotent(prior: DbSnapshotView, schema: Seq<char>, inserted: u64)
    ensures
        bootstrap_effect(bootstrap_effect(prior, schema, inserted), schema, inserted)
            == bootstrap_effect(prior, schema, inserted),
{
}

} // verus!
