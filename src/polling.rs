use vstd::prelude::*;

verus! {

/// The ids of `current` that `previous` lacks, in the order of `current`.
pub open spec fn fresh_ids(previous: Seq<u32>, current: Seq<u32>) -> Seq<u32>
    decreases current.len(),
{
    if current.len() == 0 {
        Seq::empty()
    } else {
        let rest = fresh_ids(previous, current.drop_last());
        if previous.contains(current.last()) {
            rest
        } else {
            rest.push(current.last())
        }
    }
}

proof fn lemma_contains_push(s: Seq<u32>, x: u32, id: u32)
    ensures
        s.push(x).contains(id) <==> (s.contains(id) || x == id),
{
    let pushed = s.push(x);
    if pushed.contains(id) {
        let k = choose|k: int| 0 <= k < pushed.len() && pushed[k] == id;
        if k < s.len() {
            assert(s[k] == id);
        }
    }
    if s.contains(id) {
        let k = choose|k: int| 0 <= k < s.len() && s[k] == id;
        assert(pushed[k] == id);
    }
    assert(pushed[s.len() as int] == x);
}

/// The ids of `current` that are absent from `previous`, in the order of
/// `current`.
pub fn new_ids(previous: &Vec<u32>, current: &Vec<u32>) -> (r: Vec<u32>)
    ensures
        r@ == fresh_ids(previous@, current@),
{
    let mut r: Vec<u32> = Vec::new();
    let mut i: usize = 0;
    while i < current.len()
        invariant
            i <= current.len(),
            r@ == fresh_ids(previous@, current@.take(i as int)),
        decreases current.len() - i,
    {
        let id = current[i];
        let mut seen = false;
        let mut j: usize = 0;
        while j < previous.len()
            invariant
                j <= previous.len(),
                seen == previous@.take(j as int).contains(id),
            decreases previous.len() - j,
        {
            assert(previous@.take(j + 1) =~= previous@.take(j as int).push(previous@[j as int]));
            proof {
                lemma_contains_push(previous@.take(j as int), previous@[j as int], id);
            }
            if previous[j] == id {
                seen = true;
            }
            j = j + 1;
        }
        assert(previous@.take(previous.len() as int) =~= previous@);
        assert(current@.take(i + 1).drop_last() =~= current@.take(i as int));
        if !seen {
            r.push(id);
        }
        i = i + 1;
    }
    assert(current@.take(current.len() as int) =~= current@);
    r
}

/// The snapshot diff of the polling strategy: it keeps the ids of the most
/// recent snapshot, and nothing older.
pub struct SnapshotDiff {
    previous: Option<Vec<u32>>,
}

impl View for SnapshotDiff {
    type V = Option<Seq<u32>>;

    closed spec fn view(&self) -> Option<Seq<u32>> {
        match self.previous {
            Some(v) => Some(v@),
            None => None,
        }
    }
}

/// What observing `snapshot` emits after `previous` (no snapshot yet:
/// `None`): nothing for the first snapshot, which sets the baseline, and for
/// a later one the ids it holds that the snapshot before it lacks.
pub open spec fn emitted(previous: Option<Seq<u32>>, snapshot: Seq<u32>) -> Seq<u32> {
    match previous {
        None => Seq::empty(),
        Some(p) => fresh_ids(p, snapshot),
    }
}

impl SnapshotDiff {
    /// A diff that has seen no snapshot yet.
    pub fn new() -> (r: Self)
        ensures
            r@ is None,
    {
        SnapshotDiff { previous: None }
    }

    /// Takes the ids of the current snapshot and returns those that are new
    /// since the last one; the current snapshot then replaces the last.
    pub fn observe(&mut self, snapshot: Vec<u32>) -> (r: Vec<u32>)
        ensures
            r@ == emitted(old(self)@, snapshot@),
            final(self)@ == Some(snapshot@),
    {
        let r = match &self.previous {
            None => Vec::new(),
            Some(p) => new_ids(p, &snapshot),
        };
        self.previous = Some(snapshot);
        r
    }
}

/// What a diff emits for each of `snapshots`, observed in order from a diff
/// that has seen none.
pub open spec fn emissions(snapshots: Seq<Seq<u32>>) -> Seq<Seq<u32>>
    decreases snapshots.len(),
{
    if snapshots.len() == 0 {
        Seq::empty()
    } else {
        let before = snapshots.drop_last();
        let previous = if before.len() == 0 {
            None
        } else {
            Some(before.last())
        };
        emissions(before).push(emitted(previous, snapshots.last()))
    }
}

/// An id is fresh exactly when the current snapshot holds it and the one
/// before does not.
pub proof fn fresh_ids_members(previous: Seq<u32>, current: Seq<u32>, id: u32)
    ensures
        fresh_ids(previous, current).contains(id) <==> (current.contains(id) && !previous.contains(id)),
    decreases current.len(),
{
    if current.len() > 0 {
        let before = current.drop_last();
        fresh_ids_members(previous, before, id);
        assert(current =~= before.push(current.last()));
        lemma_contains_push(before, current.last(), id);
        lemma_contains_push(fresh_ids(previous, before), current.last(), id);
    }
}

/// A snapshot that holds each id once yields each fresh id once.
pub proof fn fresh_ids_distinct(previous: Seq<u32>, current: Seq<u32>)
    requires
        current.no_duplicates(),
    ensures
        fresh_ids(previous, current).no_duplicates(),
    decreases current.len(),
{
    if current.len() > 0 {
        let before = current.drop_last();
        assert(before.no_duplicates()) by {
            assert forall|i: int, j: int| 0 <= i < before.len() && 0 <= j < before.len() && i != j implies before[i]
                != before[j] by {
                assert(before[i] == current[i] && before[j] == current[j]);
            }
        }
        fresh_ids_distinct(previous, before);
        let rest = fresh_ids(previous, before);
        if !previous.contains(current.last()) {
            fresh_ids_members(previous, before, current.last());
            assert(!before.contains(current.last())) by {
                if before.contains(current.last()) {
                    let k = choose|k: int| 0 <= k < before.len() && before[k] == current.last();
                    assert(current[k] == current[current.len() - 1]);
                }
            }
            let pushed = rest.push(current.last());
            assert forall|i: int, j: int| 0 <= i < pushed.len() && 0 <= j < pushed.len() && i != j implies pushed[i]
                != pushed[j] by {
                if i < rest.len() && j < rest.len() {
                    assert(pushed[i] == rest[i] && pushed[j] == rest[j]);
                } else if i < rest.len() {
                    assert(rest.contains(rest[i]));
                } else if j < rest.len() {
                    assert(rest.contains(rest[j]));
                }
            }
        }
    }
}

/// Observing snapshots S0, S1, ... in order emits nothing for S0, and for
/// each later Sk exactly the ids that Sk holds and Sk-1 lacks, in the order
/// of Sk; where Sk holds each id once, each of those ids is emitted once.
pub proof fn polling_emits_arrivals(snapshots: Seq<Seq<u32>>)
    ensures
        emissions(snapshots).len() == snapshots.len(),
        snapshots.len() > 0 ==> emissions(snapshots)[0] == Seq::<u32>::empty(),
        forall|k: int|
            0 < k < snapshots.len() ==> #[trigger] emissions(snapshots)[k] == fresh_ids(
                snapshots[k - 1],
                snapshots[k],
            ),
        forall|k: int, id: u32|
            0 < k < snapshots.len() ==> (#[trigger] emissions(snapshots)[k].contains(id) <==> (
            snapshots[k].contains(id) && !snapshots[k - 1].contains(id))),
        forall|k: int|
            0 < k < snapshots.len() && snapshots[k].no_duplicates() ==> (#[trigger] emissions(
                snapshots,
            )[k]).no_duplicates(),
    decreases snapshots.len(),
{
    if snapshots.len() > 0 {
        let before = snapshots.drop_last();
        polling_emits_arrivals(before);
        assert forall|k: int| 0 < k < snapshots.len() implies #[trigger] emissions(snapshots)[k]
            == fresh_ids(snapshots[k - 1], snapshots[k]) by {
            if k < before.len() {
                assert(emissions(snapshots)[k] == emissions(before)[k]);
            }
        }
        assert forall|k: int, id: u32| 0 < k < snapshots.len() implies (
        #[trigger] emissions(snapshots)[k].contains(id) <==> (snapshots[k].contains(id)
            && !snapshots[k - 1].contains(id))) by {
            fresh_ids_members(snapshots[k - 1], snapshots[k], id);
        }
        assert forall|k: int|
            0 < k < snapshots.len() && snapshots[k].no_duplicates() implies (#[trigger] emissions(
                snapshots,
            )[k]).no_duplicates() by {
            fresh_ids_distinct(snapshots[k - 1], snapshots[k]);
        }
    }
}

} // verus!
