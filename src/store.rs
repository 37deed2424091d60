use std::sync::Arc;
use vstd::prelude::*;
use crate::dataset::Dataset;

verus! {

/// Relies on `Arc::clone`: the new handle points to the same allocation, so it
/// shares the value of the original.
#[verifier::external_body]
fn share(a: &Arc<Dataset>) -> (r: Arc<Dataset>)
    ensures
        r == *a,
{
    Arc::clone(a)
}

/// Holder of the currently active dataset snapshot: one writer replaces it,
/// any number of readers take a shared handle to it. A handle taken before a
/// replacement keeps the old snapshot alive until the reader drops it.
pub struct DatasetStore {
    current: Option<Arc<Dataset>>,
}

impl View for DatasetStore {
    type V = Option<Arc<Dataset>>;

    /// The active snapshot; `None` before the first publication.
    closed spec fn view(&self) -> Option<Arc<Dataset>> {
        self.current
    }
}

impl DatasetStore {
    /// A store in which nothing has been published yet.
    pub fn new() -> (r: DatasetStore)
        ensures
            r@ is None,
    {
        DatasetStore { current: None }
    }

    /// The active snapshot, or `None` ("not yet available") before the first
    /// publication. Never changes the store.
    pub fn current(&self) -> (r: Option<Arc<Dataset>>)
        ensures
            r == self@,
    {
        match &self.current {
            Some(d) => Some(share(d)),
            None => None,
        }
    }

    /// Replaces the active snapshot with `new_dataset` in one step.
    pub fn publish(&mut self, new_dataset: Arc<Dataset>)
        ensures
            final(self)@ == Some(new_dataset),
            final(self)@ == after_publications(old(self)@, seq![new_dataset]),
    {
        self.current = Some(new_dataset);
    }
}

/// The snapshot a store shows after starting from `start` and receiving the
/// publications `published`, in order.
pub open spec fn after_publications(
    start: Option<Arc<Dataset>>,
    published: Seq<Arc<Dataset>>,
) -> Option<Arc<Dataset>>
    decreases published.len(),
{
    if published.len() == 0 {
        start
    } else {
        Some(published.last())
    }
}

/// Readers never see a mixture: whatever sequence of publications a store
/// receives, the snapshot it then shows is either the one it started with (when
/// nothing was published) or exactly one of the published snapshots.
pub proof fn lemma_snapshot_is_whole(start: Option<Arc<Dataset>>, published: Seq<Arc<Dataset>>)
    ensures
        published.len() == 0 ==> after_publications(start, published) == start,
        published.len() > 0 ==> exists|i: int|
            0 <= i < published.len() && after_publications(start, published) == Some(
                #[trigger] published[i],
            ),
{
    if published.len() > 0 {
        assert(after_publications(start, published) == Some(published[published.len() - 1]));
    }
}

/// Once a publication has returned, the store shows that snapshot, whatever
/// was published before it.
pub proof fn lemma_latest_publication_wins(
    start: Option<Arc<Dataset>>,
    published: Seq<Arc<Dataset>>,
    latest: Arc<Dataset>,
)
    ensures
        after_publications(start, published.push(latest)) == Some(latest),
{
}

} // verus!
