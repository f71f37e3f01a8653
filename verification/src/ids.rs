use vstd::prelude::*;
use crate::{SurveyError, MIN_ID, MAX_ID};
use rand::Rng;

verus! {

/// The set of IDs a `dashmap::DashSet<usize>` holds, as a mathematical set.
pub uninterp spec fn dash_contents(s: dashmap::DashSet<usize>) -> Set<usize>;

#[verifier::external_type_specification]
#[verifier::external_body]
#[verifier::reject_recursive_types(K)]
#[verifier::reject_recursive_types(S)]
pub struct ExDashSet<K, S>(dashmap::DashSet<K, S>);

/// Relies on dashmap::DashSet::new: the fresh set holds no element.
#[verifier::external_body]
fn dash_new() -> (s: dashmap::DashSet<usize>)
    ensures
        dash_contents(s) == Set::<usize>::empty(),
{
    dashmap::DashSet::new()
}

/// Relies on dashmap::DashSet::insert: adds the key and reports true if it
/// was absent; leaves the set as it was and reports false if it was present.
/// The insertion is atomic with respect to concurrent callers.
#[verifier::external_body]
fn dash_insert(s: &mut dashmap::DashSet<usize>, key: usize) -> (newly_added: bool)
    ensures
        newly_added == !dash_contents(*old(s)).contains(key),
        newly_added ==> dash_contents(*final(s)) == dash_contents(*old(s)).insert(key),
        !newly_added ==> dash_contents(*final(s)) == dash_contents(*old(s)),
{
    s.insert(key)
}

/// Relies on rand::Rng::gen_range on rand::thread_rng: a value drawn
/// uniformly from the inclusive range, which must be non-empty.
#[verifier::external_body]
fn draw_in_range(lo: usize, hi: usize) -> (r: usize)
    requires
        lo <= hi,
    ensures
        lo <= r <= hi,
{
    rand::thread_rng().gen_range(lo..=hi)
}

/// How many uniform random draws an allocation makes before it falls back to
/// a deterministic scan of the range. The scan keeps the allocator total:
/// a bare retry loop would have no bound on its running time.
const RANDOM_DRAW_LIMIT: usize = 32;

/// Issues survey IDs that are pairwise distinct over the generator's
/// lifetime, drawn from a fixed inclusive range.
pub struct SurveyIdGenerator {
    min_id: usize,
    max_id: usize,
    issued: dashmap::DashSet<usize>,
}

impl SurveyIdGenerator {
    /// The set of every ID this generator has handed out so far.
    pub closed spec fn issued(&self) -> Set<usize> {
        dash_contents(self.issued)
    }

    /// Smallest ID the generator may hand out.
    pub closed spec fn min_id(&self) -> usize {
        self.min_id
    }

    /// Largest ID the generator may hand out.
    pub closed spec fn max_id(&self) -> usize {
        self.max_id
    }

    /// The range is non-empty, and leaves room for the scan's end marker.
    pub open spec fn wf(&self) -> bool {
        self.min_id() <= self.max_id() < usize::MAX
    }

    /// A generator over the default six-digit ID range, with nothing issued.
    pub fn new() -> (g: SurveyIdGenerator)
        ensures
            g.wf(),
            g.min_id() == MIN_ID,
            g.max_id() == MAX_ID,
            g.issued() == Set::<usize>::empty(),
    {
        SurveyIdGenerator { min_id: MIN_ID, max_id: MAX_ID, issued: dash_new() }
    }

    /// A generator over a caller-chosen inclusive ID range, with nothing
    /// issued. Shrinking the range makes exhaustion reachable in tests.
    pub fn with_range(min_id: usize, max_id: usize) -> (g: SurveyIdGenerator)
        requires
            min_id <= max_id < usize::MAX,
        ensures
            g.wf(),
            g.min_id() == min_id,
            g.max_id() == max_id,
            g.issued() == Set::<usize>::empty(),
    {
        SurveyIdGenerator { min_id, max_id, issued: dash_new() }
    }

    /// Allocates one ID: a value in the range that was never issued before,
    /// recorded as issued before the call returns. Fails exactly when every
    /// value of the range has already been issued, and then changes nothing.
    ///
    /// The ID is found by optimistic retry: draw a random candidate and let
    /// the set insertion arbitrate uniqueness. After `RANDOM_DRAW_LIMIT`
    /// collisions the allocator scans the range for a free value instead,
    /// which either succeeds or proves the range exhausted.
    #[verifier::loop_isolation(false)]
    pub fn generate(&mut self) -> (r: Result<usize, SurveyError>)
        requires
            old(self).wf(),
        ensures
            final(self).wf(),
            final(self).min_id() == old(self).min_id(),
            final(self).max_id() == old(self).max_id(),
            match r {
                Ok(id) => {
                    &&& old(self).min_id() <= id <= old(self).max_id()
                    &&& !old(self).issued().contains(id)
                    &&& final(self).issued() == old(self).issued().insert(id)
                },
                Err(e) => {
                    &&& e == SurveyError::ExhaustedRange
                    &&& final(self).issued() == old(self).issued()
                    &&& forall|id: usize|
                        old(self).min_id() <= id <= old(self).max_id()
                            ==> old(self).issued().contains(id)
                },
            },
    {
        let mut draws: usize = 0;
        while draws < RANDOM_DRAW_LIMIT
            invariant
                self.min_id == old(self).min_id,
                self.max_id == old(self).max_id,
                self.issued() == old(self).issued(),
            decreases RANDOM_DRAW_LIMIT - draws,
        {
            let candidate: usize = draw_in_range(self.min_id, self.max_id);
            if dash_insert(&mut self.issued, candidate) {
                return Ok(candidate);
            }
            draws = draws + 1;
        }
        let mut next: usize = self.min_id;
        while next <= self.max_id
            invariant
                self.min_id == old(self).min_id,
                self.max_id == old(self).max_id,
                self.issued() == old(self).issued(),
                self.min_id <= next,
                forall|j: usize| self.min_id <= j < next ==> old(self).issued().contains(j),
            decreases self.max_id + 1 - next,
        {
            if dash_insert(&mut self.issued, next) {
                return Ok(next);
            }
            next = next + 1;
        }
        Err(SurveyError::ExhaustedRange)
    }
}

/// The set of issued IDs after replaying a history of allocations on top of
/// an initial set, in order.
pub open spec fn issued_after(initial: Set<usize>, ids: Seq<usize>) -> Set<usize>
    decreases ids.len(),
{
    if ids.len() == 0 {
        initial
    } else {
        issued_after(initial, ids.drop_last()).insert(ids.last())
    }
}

/// A history of allocations is fresh when each ID was absent from the issued
/// set of its moment, as `generate` ensures of every ID it returns.
pub open spec fn fresh_history(initial: Set<usize>, ids: Seq<usize>) -> bool {
    forall|i: int|
        0 <= i < ids.len()
            ==> !issued_after(initial, ids.take(i)).contains(#[trigger] ids[i])
}

proof fn lemma_issued_after_prefix(initial: Set<usize>, ids: Seq<usize>, i: int, j: int)
    requires
        0 <= i <= j <= ids.len(),
    ensures
        issued_after(initial, ids.take(i)).subset_of(issued_after(initial, ids.take(j))),
    decreases j - i,
{
    if i < j {
        lemma_issued_after_prefix(initial, ids, i, j - 1);
        assert(ids.take(j).drop_last() =~= ids.take(j - 1));
    }
}

/// However many allocations are made, sequentially or interleaved with other
/// callers on the same issued set, the IDs of a fresh history never repeat:
/// this is the uniqueness guarantee, stated over whole runs of `generate`.
pub proof fn lemma_fresh_history_distinct(initial: Set<usize>, ids: Seq<usize>)
    requires
        fresh_history(initial, ids),
    ensures
        ids.no_duplicates(),
{
    assert forall|i: int, j: int|
        0 <= i < ids.len() && 0 <= j < ids.len() && i != j implies ids[i] != ids[j] by {
        let lo = if i < j { i } else { j };
        let hi = if i < j { j } else { i };
        assert(!issued_after(initial, ids.take(hi)).contains(ids[hi]));
        assert(ids.take(lo + 1).drop_last() =~= ids.take(lo));
        assert(issued_after(initial, ids.take(lo + 1)).contains(ids[lo]));
        lemma_issued_after_prefix(initial, ids, lo + 1, hi);
    }
}

} // verus!
