//! Left/right price scale identifiers and series assignments.
//!
//! Professional charting platforms allow two independent price axes -- one on
//! each side of the chart -- so that series with different value ranges
//! (e.g. price on the right, RSI on the left) can share the same pane.
use super::pricescale::PriceScaleMode;
use crate::text::str_eq;
use vstd::prelude::*;

verus! {

/// Price scale position identifier
#[derive(Debug, Clone, Copy, PartialEq, Eq, Hash, Structural)]
pub enum PriceScaleId {
    /// Left price scale (typically for indicators, percentage mode)
    Left,
    /// Right price scale (primary, typically for main series)
    Right,
}

impl PriceScaleId {
    pub open spec fn spec_opposite(self) -> PriceScaleId {
        match self {
            PriceScaleId::Left => PriceScaleId::Right,
            PriceScaleId::Right => PriceScaleId::Left,
        }
    }

    pub open spec fn spec_name(self) -> Seq<char> {
        match self {
            PriceScaleId::Left => "left"@,
            PriceScaleId::Right => "right"@,
        }
    }

    /// Returns the opposite scale
    pub fn opposite(&self) -> (r: Self)
        ensures
            r == self.spec_opposite(),
            r != *self,
    {
        match self {
            Self::Left => Self::Right,
            Self::Right => Self::Left,
        }
    }

    /// Lower-case name of the scale.
    pub fn to_string(&self) -> (r: String)
        ensures
            r@ == self.spec_name(),
    {
        match self {
            Self::Left => "left".to_owned(),
            Self::Right => "right".to_owned(),
        }
    }
}

impl Default for PriceScaleId {
    fn default() -> (r: Self)
        ensures
            r == PriceScaleId::Right,
    {
        PriceScaleId::Right
    }
}

/// Taking the opposite scale twice gives back the original scale.
pub proof fn opposite_is_involution(id: PriceScaleId)
    ensures
        id.spec_opposite().spec_opposite() == id,
        id.spec_opposite() != id,
{
}

/// Series-to-scale assignment
#[derive(Debug, Clone)]
pub struct SeriesScaleAssignment {
    /// Series identifier (e.g., "BTCUSDT", "RSI", "volume")
    pub series_id: String,
    /// Which price scale this series uses
    pub scale_id: PriceScaleId,
}

/// No two assignments name the same series.
pub open spec fn series_ids_unique(v: Seq<SeriesScaleAssignment>) -> bool {
    forall|i: int, j: int|
        0 <= i < j < v.len() ==> (#[trigger] v[i]).series_id@ != (#[trigger] v[j]).series_id@
}

/// Some assignment names the series `k`.
pub open spec fn names_series(v: Seq<SeriesScaleAssignment>, k: Seq<char>) -> bool {
    exists|i: int| 0 <= i < v.len() && (#[trigger] v[i]).series_id@ == k
}

/// The scale of the assignment that names the series `k`.
pub open spec fn assigned_scale(v: Seq<SeriesScaleAssignment>, k: Seq<char>) -> PriceScaleId {
    v[choose|i: int| 0 <= i < v.len() && (#[trigger] v[i]).series_id@ == k].scale_id
}

/// The assignments as a map from series name to scale.
pub open spec fn assignment_map(v: Seq<SeriesScaleAssignment>) -> Map<Seq<char>, PriceScaleId> {
    Map::new(|k: Seq<char>| names_series(v, k), |k: Seq<char>| assigned_scale(v, k))
}

/// The scale a series is drawn against: its assigned one, else the right scale.
pub open spec fn scale_of_series(m: Map<Seq<char>, PriceScaleId>, k: Seq<char>) -> PriceScaleId {
    if m.contains_key(k) {
        m[k]
    } else {
        PriceScaleId::Right
    }
}

proof fn lemma_assignment_at(v: Seq<SeriesScaleAssignment>, i: int)
    requires
        series_ids_unique(v),
        0 <= i < v.len(),
    ensures
        assignment_map(v).contains_key(v[i].series_id@),
        assignment_map(v)[v[i].series_id@] == v[i].scale_id,
{
    let k = v[i].series_id@;
    assert(names_series(v, k));
    let j = choose|j: int| 0 <= j < v.len() && (#[trigger] v[j]).series_id@ == k;
    if j != i {
        if j < i {
            assert(v[j].series_id@ != v[i].series_id@);
        } else {
            assert(v[i].series_id@ != v[j].series_id@);
        }
    }
}

proof fn lemma_update_map(v: Seq<SeriesScaleAssignment>, i: int, e: SeriesScaleAssignment)
    requires
        series_ids_unique(v),
        series_ids_unique(v.update(i, e)),
        0 <= i < v.len(),
        v[i].series_id@ == e.series_id@,
    ensures
        assignment_map(v.update(i, e)) == assignment_map(v).insert(e.series_id@, e.scale_id),
{
    let w = v.update(i, e);
    let k = e.series_id@;
    lemma_assignment_at(w, i);
    assert forall|q: Seq<char>| #[trigger] names_series(w, q) == (q == k || names_series(v, q)) by {
        if names_series(v, q) {
            let j = choose|j: int| 0 <= j < v.len() && (#[trigger] v[j]).series_id@ == q;
            assert(w[j].series_id@ == q);
        }
        if names_series(w, q) {
            let j = choose|j: int| 0 <= j < w.len() && (#[trigger] w[j]).series_id@ == q;
            assert(v[j].series_id@ == q);
        }
    }
    assert forall|q: Seq<char>| q != k && names_series(v, q) implies assignment_map(w)[q]
        == assignment_map(v)[q] by {
        let j = choose|j: int| 0 <= j < v.len() && (#[trigger] v[j]).series_id@ == q;
        assert(j != i);
        lemma_assignment_at(v, j);
        lemma_assignment_at(w, j);
    }
    assert(assignment_map(w) =~= assignment_map(v).insert(k, e.scale_id));
}

proof fn lemma_push_map(v: Seq<SeriesScaleAssignment>, e: SeriesScaleAssignment)
    requires
        series_ids_unique(v),
        !names_series(v, e.series_id@),
    ensures
        series_ids_unique(v.push(e)),
        assignment_map(v.push(e)) == assignment_map(v).insert(e.series_id@, e.scale_id),
{
    let w = v.push(e);
    let k = e.series_id@;
    assert forall|a: int, b: int| 0 <= a < b < w.len() implies (#[trigger] w[a]).series_id@
        != (#[trigger] w[b]).series_id@ by {
        if b == v.len() {
            assert(w[a] == v[a]);
        } else {
            assert(w[a] == v[a] && w[b] == v[b]);
        }
    }
    lemma_assignment_at(w, v.len() as int);
    assert forall|q: Seq<char>| #[trigger] names_series(w, q) == (q == k || names_series(v, q)) by {
        if names_series(v, q) {
            let j = choose|j: int| 0 <= j < v.len() && (#[trigger] v[j]).series_id@ == q;
            assert(w[j].series_id@ == q);
        }
        if names_series(w, q) && q != k {
            let j = choose|j: int| 0 <= j < w.len() && (#[trigger] w[j]).series_id@ == q;
            assert(j < v.len());
            assert(v[j].series_id@ == q);
        }
    }
    assert forall|q: Seq<char>| q != k && names_series(v, q) implies assignment_map(w)[q]
        == assignment_map(v)[q] by {
        let j = choose|j: int| 0 <= j < v.len() && (#[trigger] v[j]).series_id@ == q;
        lemma_assignment_at(v, j);
        assert(w[j] == v[j]);
        lemma_assignment_at(w, j);
    }
    assert(assignment_map(w) =~= assignment_map(v).insert(k, e.scale_id));
}

proof fn lemma_remove_map(v: Seq<SeriesScaleAssignment>, i: int)
    requires
        series_ids_unique(v),
        0 <= i < v.len(),
    ensures
        series_ids_unique(v.remove(i)),
        assignment_map(v.remove(i)) == assignment_map(v).remove(v[i].series_id@),
{
    let w = v.remove(i);
    let k = v[i].series_id@;
    assert forall|a: int, b: int| 0 <= a < b < w.len() implies (#[trigger] w[a]).series_id@
        != (#[trigger] w[b]).series_id@ by {
        let a0 = if a < i { a } else { a + 1 };
        let b0 = if b < i { b } else { b + 1 };
        assert(w[a] == v[a0]);
        assert(w[b] == v[b0]);
    }
    assert forall|q: Seq<char>| #[trigger] names_series(w, q) == (q != k && names_series(v, q)) by {
        if names_series(w, q) {
            let j = choose|j: int| 0 <= j < w.len() && (#[trigger] w[j]).series_id@ == q;
            let j0 = if j < i { j } else { j + 1 };
            assert(w[j] == v[j0]);
            assert(v[j0].series_id@ == q);
            if j0 < i {
                assert(v[j0].series_id@ != v[i].series_id@);
            } else {
                assert(v[i].series_id@ != v[j0].series_id@);
            }
        }
        if q != k && names_series(v, q) {
            let j = choose|j: int| 0 <= j < v.len() && (#[trigger] v[j]).series_id@ == q;
            assert(j != i);
            let j1 = if j < i { j } else { j - 1 };
            assert(w[j1] == v[j]);
            assert(w[j1].series_id@ == q);
        }
    }
    assert forall|q: Seq<char>| q != k && names_series(v, q) implies assignment_map(w)[q]
        == assignment_map(v)[q] by {
        let j = choose|j: int| 0 <= j < v.len() && (#[trigger] v[j]).series_id@ == q;
        assert(j != i);
        let j1 = if j < i { j } else { j - 1 };
        assert(w[j1] == v[j]);
        lemma_assignment_at(v, j);
        lemma_assignment_at(w, j1);
    }
    assert(assignment_map(w) =~= assignment_map(v).remove(k));
}

/// Visibility, scale modes and series-to-scale assignments of a pane with
/// a left and a right price axis.
///
/// A series that was never assigned is drawn against the right scale.
pub struct DualPriceScaleManager {
    assignments: Vec<SeriesScaleAssignment>,
    left_mode: PriceScaleMode,
    right_mode: PriceScaleMode,
    left_visible: bool,
    right_visible: bool,
}

impl DualPriceScaleManager {
    /// The manager's assignments hold each series at most once.
    #[verifier::type_invariant]
    closed spec fn wf(self) -> bool {
        series_ids_unique(self.assignments@)
    }

    /// The assigned scale of each assigned series.
    pub closed spec fn series_map(&self) -> Map<Seq<char>, PriceScaleId> {
        assignment_map(self.assignments@)
    }

    /// Whether the scale on side `id` is shown.
    pub closed spec fn spec_visible(&self, id: PriceScaleId) -> bool {
        match id {
            PriceScaleId::Left => self.left_visible,
            PriceScaleId::Right => self.right_visible,
        }
    }

    /// The mode of the scale on side `id`.
    pub closed spec fn spec_mode(&self, id: PriceScaleId) -> PriceScaleMode {
        match id {
            PriceScaleId::Left => self.left_mode,
            PriceScaleId::Right => self.right_mode,
        }
    }

    /// A manager with no assignments, the right scale shown and the left
    /// one hidden, both in normal mode.
    pub fn new() -> (r: Self)
        ensures
            r.series_map() == Map::<Seq<char>, PriceScaleId>::empty(),
            r.spec_visible(PriceScaleId::Right),
            !r.spec_visible(PriceScaleId::Left),
            r.spec_mode(PriceScaleId::Left) == PriceScaleMode::Normal,
            r.spec_mode(PriceScaleId::Right) == PriceScaleMode::Normal,
    {
        let r = DualPriceScaleManager {
            assignments: Vec::new(),
            left_mode: PriceScaleMode::Normal,
            right_mode: PriceScaleMode::Normal,
            left_visible: false,
            right_visible: true,
        };
        assert(r.series_map() =~= Map::<Seq<char>, PriceScaleId>::empty());
        r
    }

    fn find(&self, series_id: &str) -> (r: Option<usize>)
        ensures
            match r {
                Some(i) => i < self.assignments@.len() && self.assignments@[i as int].series_id@
                    == series_id@,
                None => !names_series(self.assignments@, series_id@),
            },
    {
        let mut i: usize = 0;
        while i < self.assignments.len()
            invariant
                i <= self.assignments@.len(),
                forall|j: int| 0 <= j < i ==> (#[trigger] self.assignments@[j]).series_id@ != series_id@,
            decreases self.assignments@.len() - i,
        {
            if str_eq(self.assignments[i].series_id.as_str(), series_id) {
                return Some(i);
            }
            i = i + 1;
        }
        None
    }

    /// Whether the scale on side `id` is shown.
    pub fn is_visible(&self, id: PriceScaleId) -> (r: bool)
        ensures
            r == self.spec_visible(id),
    {
        match id {
            PriceScaleId::Left => self.left_visible,
            PriceScaleId::Right => self.right_visible,
        }
    }

    /// Shows or hides the scale on side `id`.
    pub fn set_visible(&mut self, id: PriceScaleId, visible: bool)
        ensures
            final(self).series_map() == old(self).series_map(),
            final(self).spec_visible(id) == visible,
            final(self).spec_visible(id.spec_opposite()) == old(self).spec_visible(id.spec_opposite()),
            final(self).spec_mode(PriceScaleId::Left) == old(self).spec_mode(PriceScaleId::Left),
            final(self).spec_mode(PriceScaleId::Right) == old(self).spec_mode(PriceScaleId::Right),
    {
        proof {
            use_type_invariant(&*self);
        }
        match id {
            PriceScaleId::Left => self.left_visible = visible,
            PriceScaleId::Right => self.right_visible = visible,
        }
    }

    /// The mode of the scale on side `id`.
    pub fn get_mode(&self, id: PriceScaleId) -> (r: PriceScaleMode)
        ensures
            r == self.spec_mode(id),
    {
        match id {
            PriceScaleId::Left => self.left_mode,
            PriceScaleId::Right => self.right_mode,
        }
    }

    /// Sets the mode of the scale on side `id`.
    pub fn set_mode(&mut self, id: PriceScaleId, mode: PriceScaleMode)
        ensures
            final(self).series_map() == old(self).series_map(),
            final(self).spec_mode(id) == mode,
            final(self).spec_mode(id.spec_opposite()) == old(self).spec_mode(id.spec_opposite()),
            final(self).spec_visible(PriceScaleId::Left) == old(self).spec_visible(PriceScaleId::Left),
            final(self).spec_visible(PriceScaleId::Right) == old(self).spec_visible(PriceScaleId::Right),
    {
        proof {
            use_type_invariant(&*self);
        }
        match id {
            PriceScaleId::Left => self.left_mode = mode,
            PriceScaleId::Right => self.right_mode = mode,
        }
    }

    /// Assigns the series to the scale on side `scale_id`, replacing any
    /// earlier assignment of the same series.
    pub fn assign_series(&mut self, series_id: &str, scale_id: PriceScaleId)
        ensures
            final(self).series_map() == old(self).series_map().insert(series_id@, scale_id),
            final(self).spec_visible(PriceScaleId::Left) == old(self).spec_visible(PriceScaleId::Left),
            final(self).spec_visible(PriceScaleId::Right) == old(self).spec_visible(PriceScaleId::Right),
            final(self).spec_mode(PriceScaleId::Left) == old(self).spec_mode(PriceScaleId::Left),
            final(self).spec_mode(PriceScaleId::Right) == old(self).spec_mode(PriceScaleId::Right),
    {
        proof {
            use_type_invariant(&*self);
        }
        let ghost v0 = self.assignments@;
        let entry = SeriesScaleAssignment { series_id: series_id.to_owned(), scale_id };
        let found = self.find(series_id);
        let mut v: Vec<SeriesScaleAssignment> = Vec::new();
        std::mem::swap(&mut v, &mut self.assignments);
        match found {
            Some(i) => {
                v.set(i, entry);
                proof {
                    let v1 = v@;
                    assert(v1 == v0.update(i as int, entry));
                    assert(series_ids_unique(v1)) by {
                        assert forall|a: int, b: int| 0 <= a < b < v1.len() implies (
                        #[trigger] v1[a]).series_id@ != (#[trigger] v1[b]).series_id@ by {
                            assert(v1[a].series_id@ == v0[a].series_id@);
                            assert(v1[b].series_id@ == v0[b].series_id@);
                        }
                    }
                    lemma_update_map(v0, i as int, entry);
                }
            },
            None => {
                v.push(entry);
                proof {
                    lemma_push_map(v0, entry);
                }
            },
        }
        self.assignments = v;
    }

    /// Removes the series' assignment, if any; the series is then drawn
    /// against the right scale.
    pub fn unassign_series(&mut self, series_id: &str)
        ensures
            final(self).series_map() == old(self).series_map().remove(series_id@),
            final(self).spec_visible(PriceScaleId::Left) == old(self).spec_visible(PriceScaleId::Left),
            final(self).spec_visible(PriceScaleId::Right) == old(self).spec_visible(PriceScaleId::Right),
            final(self).spec_mode(PriceScaleId::Left) == old(self).spec_mode(PriceScaleId::Left),
            final(self).spec_mode(PriceScaleId::Right) == old(self).spec_mode(PriceScaleId::Right),
    {
        proof {
            use_type_invariant(&*self);
        }
        let ghost v0 = self.assignments@;
        match self.find(series_id) {
            Some(i) => {
                let mut v: Vec<SeriesScaleAssignment> = Vec::new();
                std::mem::swap(&mut v, &mut self.assignments);
                v.remove(i);
                proof {
                    lemma_remove_map(v0, i as int);
                }
                self.assignments = v;
            },
            None => {
                proof {
                    assert(assignment_map(v0) =~= assignment_map(v0).remove(series_id@));
                }
            },
        }
    }

    /// The series assigned to the scale on side `scale_id`, each once, in no
    /// promised order.
    pub fn get_assigned_series(&self, scale_id: PriceScaleId) -> (r: Vec<&str>)
        ensures
            forall|j: int|
                0 <= j < r@.len() ==> self.series_map().contains_key((#[trigger] r@[j])@)
                    && self.series_map()[r@[j]@] == scale_id,
            forall|k: Seq<char>|
                self.series_map().contains_key(k) && self.series_map()[k] == scale_id ==> exists|
                    j: int,
                | 0 <= j < r@.len() && (#[trigger] r@[j])@ == k,
            forall|a: int, b: int| 0 <= a < b < r@.len() ==> (#[trigger] r@[a])@ != (#[trigger] r@[b])@,
    {
        proof {
            use_type_invariant(self);
        }
        let ghost v = self.assignments@;
        let ghost mut idx: Seq<int> = Seq::empty();
        let mut r: Vec<&str> = Vec::new();
        let mut i: usize = 0;
        while i < self.assignments.len()
            invariant
                v == self.assignments@,
                series_ids_unique(v),
                i <= v.len(),
                idx.len() == r@.len(),
                forall|j: int|
                    0 <= j < idx.len() ==> 0 <= #[trigger] idx[j] < i && v[idx[j]].scale_id == scale_id
                        && r@[j]@ == v[idx[j]].series_id@,
                forall|a: int, b: int| 0 <= a < b < idx.len() ==> #[trigger] idx[a] < #[trigger] idx[b],
                forall|p: int|
                    0 <= p < i && (#[trigger] v[p]).scale_id == scale_id ==> exists|j: int|
                        0 <= j < idx.len() && #[trigger] idx[j] == p,
            decreases v.len() - i,
        {
            let entry = &self.assignments[i];
            if entry.scale_id == scale_id {
                r.push(entry.series_id.as_str());
                proof {
                    let old_idx = idx;
                    idx = idx.push(i as int);
                    assert forall|p: int|
                        0 <= p < i + 1 && (#[trigger] v[p]).scale_id == scale_id implies exists|j: int|
                        0 <= j < idx.len() && #[trigger] idx[j] == p by {
                        if p < i {
                            let j = choose|j: int| 0 <= j < old_idx.len() && #[trigger] old_idx[j] == p;
                            assert(idx[j] == p);
                        } else {
                            assert(idx[idx.len() - 1] == p);
                        }
                    }
                }
            }
            i = i + 1;
        }
        proof {
            assert forall|j: int| 0 <= j < r@.len() implies self.series_map().contains_key((#[trigger] r@[j])@)
                && self.series_map()[r@[j]@] == scale_id by {
                assert(0 <= idx[j] < v.len());
                lemma_assignment_at(v, idx[j]);
            }
            assert forall|k: Seq<char>| self.series_map().contains_key(k) && self.series_map()[k] == scale_id
                implies exists|j: int| 0 <= j < r@.len() && (#[trigger] r@[j])@ == k by {
                let p = choose|p: int| 0 <= p < v.len() && (#[trigger] v[p]).series_id@ == k;
                lemma_assignment_at(v, p);
                assert(v[p].scale_id == scale_id);
                let j = choose|j: int| 0 <= j < idx.len() && #[trigger] idx[j] == p;
                assert(r@[j]@ == k);
            }
            assert forall|a: int, b: int| 0 <= a < b < r@.len() implies (#[trigger] r@[a])@
                != (#[trigger] r@[b])@ by {
                assert(idx[a] < idx[b]);
                assert(0 <= idx[a] && idx[b] < v.len());
                assert(v[idx[a]].series_id@ != v[idx[b]].series_id@);
            }
        }
        r
    }

    /// The scale that the series is drawn against: the one it was assigned
    /// to, or the right scale for a series never assigned.
    pub fn get_series_scale(&self, series_id: &str) -> (r: PriceScaleId)
        ensures
            r == scale_of_series(self.series_map(), series_id@),
    {
        proof {
            use_type_invariant(self);
        }
        match self.find(series_id) {
            Some(i) => {
                proof {
                    lemma_assignment_at(self.assignments@, i as int);
                }
                self.assignments[i].scale_id
            },
            None => PriceScaleId::Right,
        }
    }
}

impl Default for DualPriceScaleManager {
    fn default() -> (r: Self)
        ensures
            r.series_map() == Map::<Seq<char>, PriceScaleId>::empty(),
            r.spec_visible(PriceScaleId::Right),
            !r.spec_visible(PriceScaleId::Left),
            r.spec_mode(PriceScaleId::Left) == PriceScaleMode::Normal,
            r.spec_mode(PriceScaleId::Right) == PriceScaleMode::Normal,
    {
        DualPriceScaleManager::new()
    }
}

/// A series reads back the scale it was last assigned to; once unassigned it
/// reads back the right scale; and assigning or unassigning one series leaves
/// the scale of every other series as it was.
pub proof fn assignment_reads_back(
    m: Map<Seq<char>, PriceScaleId>,
    series: Seq<char>,
    other: Seq<char>,
    id: PriceScaleId,
)
    ensures
        scale_of_series(m.insert(series, id), series) == id,
        scale_of_series(m.remove(series), series) == PriceScaleId::Right,
        other != series ==> scale_of_series(m.insert(series, id), other) == scale_of_series(m, other),
        other != series ==> scale_of_series(m.remove(series), other) == scale_of_series(m, other),
{
}

} // verus!
